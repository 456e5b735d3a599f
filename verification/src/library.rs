//! The SDK entry: initialization, discovery, opening and shutdown.

use vstd::prelude::*;

use crate::callback::reject_callback_context;
use crate::camera::Camera;
use crate::camera_state::{context_refusal, CameraView};
use crate::device::{devices_from_list, listed, present_records, DeviceInfo, RawDeviceInfo};
use crate::error::{
    check, check_spec, from_code_spec, is_code_error, is_invalid_state, law_codes_round_trip,
    MvsError, MvsResult, ShutdownError,
};
use crate::native::NativeCall;
use crate::runtime::{claim_initialization, Platform, RuntimeCore, RuntimeView};
use crate::types::{AccessMode, TransportLayer};

verus! {

/// How far the opening of a camera has come.
#[derive(Debug)]
pub enum OpenState {
    /// The handle is to be created.
    Creating,
    /// The device is to be opened.
    Opening {
        /// The new handle.
        handle: usize,
    },
    /// The handle is to be destroyed again.
    RollingBack {
        /// The new handle.
        handle: usize,
        /// Why the camera cannot be opened.
        error: MvsError,
    },
    /// The camera is open.
    Opened {
        /// Its handle.
        handle: usize,
    },
    /// The camera could not be opened.
    Failed {
        /// Why not.
        error: MvsError,
    },
}

impl OpenState {
    /// Handles that are in use are not null.
    pub open spec fn wf(self) -> bool {
        match self {
            OpenState::Opening { handle } => handle != 0,
            OpenState::RollingBack { handle, .. } => handle != 0,
            OpenState::Opened { handle } => handle != 0,
            _ => true,
        }
    }

    /// Whether no native call is left to make.
    pub open spec fn is_finished(self) -> bool {
        self is Opened || self is Failed
    }

    /// The native call to make next.
    pub open spec fn call(self, mode: u32, switchover_key: u16) -> Option<NativeCall> {
        match self {
            OpenState::Creating => Some(NativeCall::CreateHandle),
            OpenState::Opening { handle } => Some(
                NativeCall::OpenDevice { handle, mode, switchover_key },
            ),
            OpenState::RollingBack { handle, .. } => Some(NativeCall::DestroyHandle { handle }),
            _ => None,
        }
    }

    /// The state after that call returned `code` and, where it was to create a
    /// handle, wrote `created` out.
    pub open spec fn after(self, code: i32, created: usize) -> OpenState {
        match self {
            OpenState::Creating => if code != 0 {
                if created == 0 {
                    OpenState::Failed { error: from_code_spec(code as u32) }
                } else {
                    OpenState::RollingBack { handle: created, error: from_code_spec(code as u32) }
                }
            } else if created == 0 {
                OpenState::Failed { error: MvsError::NullHandleAfterCreate }
            } else {
                OpenState::Opening { handle: created }
            },
            OpenState::Opening { handle } => if code == 0 {
                OpenState::Opened { handle }
            } else {
                OpenState::RollingBack { handle, error: from_code_spec(code as u32) }
            },
            OpenState::RollingBack { handle, error } => if code == 0 {
                OpenState::Failed { error }
            } else {
                OpenState::Failed {
                    error: MvsError::OpenRollback {
                        open: Box::new(error),
                        destroy: Box::new(from_code_spec(code as u32)),
                    },
                }
            },
            finished => finished,
        }
    }

    /// The session after that call: a handle that was written out is live until
    /// its destruction is confirmed.
    pub open spec fn session_after(
        self,
        session: RuntimeView,
        code: i32,
        created: usize,
    ) -> RuntimeView {
        match self {
            OpenState::Creating => if created != 0 {
                session.handle_created()
            } else {
                session
            },
            OpenState::RollingBack { .. } => if code == 0 {
                session.handle_destroyed()
            } else {
                session
            },
            _ => session,
        }
    }
}

/// The opening of one camera: create a handle, open the device, and destroy the
/// handle again where that fails.
pub struct OpenAttempt<'a> {
    device: &'a DeviceInfo,
    mode: u32,
    switchover_key: u16,
    state: OpenState,
}

impl<'a> OpenAttempt<'a> {
    /// The device to open.
    pub closed spec fn device_spec(self) -> DeviceInfo {
        *self.device
    }

    /// The access mode to open it with.
    pub closed spec fn mode(self) -> u32 {
        self.mode
    }

    /// The switchover key to open it with.
    pub closed spec fn switchover_key(self) -> u16 {
        self.switchover_key
    }

    /// How far the opening has come.
    pub closed spec fn state(self) -> OpenState {
        self.state
    }

    /// Handles that are in use are not null.
    #[verifier::type_invariant]
    pub open spec fn has_handle(self) -> bool {
        self.state().wf()
    }

    /// Return the device whose record the handle is created from.
    pub fn device(&self) -> (r: &DeviceInfo)
        ensures
            *r == self.device_spec(),
    {
        self.device
    }

    /// Return the native call to make next, or nothing when the attempt is
    /// finished.
    pub fn next_call(&self) -> (r: Option<NativeCall>)
        ensures
            r == self.state().call(self.mode(), self.switchover_key()),
            r is None <==> self.state().is_finished(),
    {
        match &self.state {
            OpenState::Creating => Some(NativeCall::CreateHandle),
            OpenState::Opening { handle } => Some(
                NativeCall::OpenDevice {
                    handle: *handle,
                    mode: self.mode,
                    switchover_key: self.switchover_key,
                },
            ),
            OpenState::RollingBack { handle, .. } => Some(
                NativeCall::DestroyHandle { handle: *handle },
            ),
            _ => None,
        }
    }

    /// Take the reply of the call that was next: its code, and the handle that
    /// a creation wrote out, which may be null.
    pub fn reply(self, runtime: &mut RuntimeCore, code: i32, created: usize) -> (r: Self)
        requires
            self.state() is RollingBack ==> old(runtime)@.live > 0,
        ensures
            r.device_spec() == self.device_spec(),
            r.mode() == self.mode(),
            r.switchover_key() == self.switchover_key(),
            r.state() == self.state().after(code, created),
            final(runtime)@ == self.state().session_after(old(runtime)@, code, created),
    {
        proof {
            use_type_invariant(&self);
        }
        let OpenAttempt { device, mode, switchover_key, state } = self;
        let result = check(code);
        let state = match state {
            OpenState::Creating => {
                if created != 0 {
                    runtime.native_handle_created();
                }
                match result {
                    Ok(()) => if created == 0 {
                        OpenState::Failed { error: MvsError::NullHandleAfterCreate }
                    } else {
                        OpenState::Opening { handle: created }
                    },
                    Err(error) => if created == 0 {
                        OpenState::Failed { error }
                    } else {
                        OpenState::RollingBack { handle: created, error }
                    },
                }
            },
            OpenState::Opening { handle } => match result {
                Ok(()) => OpenState::Opened { handle },
                Err(error) => OpenState::RollingBack { handle, error },
            },
            OpenState::RollingBack { handle, error } => match result {
                Ok(()) => {
                    runtime.native_handle_destroyed();
                    OpenState::Failed { error }
                },
                Err(destroy) => OpenState::Failed {
                    error: MvsError::OpenRollback {
                        open: Box::new(error),
                        destroy: Box::new(destroy),
                    },
                },
            },
            finished => finished,
        };
        OpenAttempt { device, mode, switchover_key, state }
    }

    /// Turn a finished attempt into a camera, which takes a lease on the
    /// session, or into the error that kept it from being opened.
    pub fn finish<I, X, E>(self, runtime: &mut RuntimeCore) -> (r: MvsResult<Camera<I, X, E>>)
        requires
            self.state().is_finished(),
            self.state() is Opened ==> old(runtime)@.leases < usize::MAX,
        ensures
            match self.state() {
                OpenState::Opened { handle } => {
                    &&& r matches Ok(camera) && camera@ == CameraView::<I, X, E>::opened(handle)
                    &&& final(runtime)@ == old(runtime)@.leased()
                },
                OpenState::Failed { error } => {
                    &&& r matches Err(reported) && reported == error
                    &&& final(runtime)@ == old(runtime)@
                },
                _ => true,
            },
    {
        proof {
            use_type_invariant(&self);
        }
        match self.state {
            OpenState::Opened { handle } => {
                runtime.lease();
                Ok(Camera::from_handle(handle))
            },
            OpenState::Failed { error } => Err(error),
            _ => Err(MvsError::InvalidState("camera handle is unavailable")),
        }
    }
}

/// The only entry through which the process-wide SDK session is finalized.
///
/// Cameras hold a lease on the session and do not borrow the entry. A process
/// may initialize the SDK once; dropping the entry does not finalize it.
#[derive(Debug)]
pub struct Sdk {
    runtime: RuntimeCore,
}

impl Sdk {
    /// What the session has lent out.
    pub closed spec fn session(self) -> RuntimeView {
        self.runtime@
    }

    /// Initialize the SDK of this process. A platform without the SDK refuses,
    /// every time; otherwise the attempt is claimed, and a failed one is spent
    /// too.
    pub fn initialize(platform: Platform, claimed: &mut bool) -> (r: MvsResult<NativeCall>)
        ensures
            platform is Unsupported ==> r == Err::<NativeCall, MvsError>(
                MvsError::UnsupportedPlatform,
            ) && *final(claimed) == *old(claimed),
            platform is WindowsX64Msvc ==> *final(claimed),
            platform is WindowsX64Msvc && *old(claimed) ==> is_invalid_state(
                r,
                "SDK initialization has already been attempted in this process"@,
            ),
            platform is WindowsX64Msvc && !*old(claimed) ==> r == Ok::<NativeCall, MvsError>(
                NativeCall::Initialize,
            ),
    {
        match platform {
            Platform::Unsupported => Err(MvsError::UnsupportedPlatform),
            Platform::WindowsX64Msvc => match claim_initialization(claimed) {
                Ok(()) => Ok(NativeCall::Initialize),
                Err(error) => Err(error),
            },
        }
    }

    /// Settle the initialization.
    pub fn initialize_done(code: i32) -> (r: MvsResult<Self>)
        ensures
            code == 0 ==> (r matches Ok(sdk) && sdk.session() == RuntimeView::fresh()),
            code != 0 ==> is_code_error(r, code),
    {
        match check(code) {
            Ok(()) => Ok(Sdk { runtime: RuntimeCore::new() }),
            Err(error) => Err(error),
        }
    }

    /// Ask for the version of the installed SDK, which needs no initialization.
    pub fn version(platform: Platform) -> (r: MvsResult<NativeCall>)
        ensures
            platform is Unsupported ==> r == Err::<NativeCall, MvsError>(
                MvsError::UnsupportedPlatform,
            ),
            platform is WindowsX64Msvc ==> r == Ok::<NativeCall, MvsError>(
                NativeCall::GetSdkVersion,
            ),
    {
        match platform {
            Platform::Unsupported => Err(MvsError::UnsupportedPlatform),
            Platform::WindowsX64Msvc => Ok(NativeCall::GetSdkVersion),
        }
    }

    /// Read the version, whose bits the SDK returns in a signed number.
    pub fn version_done(reply: i32) -> (r: u32)
        ensures
            r == (if reply >= 0 {
                reply as int
            } else {
                reply + 0x1_0000_0000
            }),
    {
        assert((reply >= 0 ==> reply as u32 == reply) && (reply < 0 ==> reply as u32 == reply
            + 0x1_0000_0000)) by (bit_vector);
        #[verifier::truncate]
        (reply as u32)
    }

    /// Enumerate the devices of the given transports.
    pub fn devices(&self, layers: TransportLayer) -> (r: NativeCall)
        ensures
            r == (NativeCall::EnumDevices { layers: layers.0 }),
    {
        NativeCall::EnumDevices { layers: layers.raw() }
    }

    /// Take the device list that the SDK filled: the declared number of
    /// entries, at most as many as the list holds, without the empty ones.
    pub fn devices_done(code: i32, device_num: u32, entries: Vec<Option<RawDeviceInfo>>) -> (r:
        MvsResult<Vec<DeviceInfo>>)
        ensures
            code == 0 ==> (r matches Ok(devices) && {
                &&& devices@.len() == present_records(listed(device_num, entries@)).len()
                &&& forall|i: int|
                    0 <= i < devices@.len() ==> (#[trigger] devices@[i]).is_snapshot_of(
                        present_records(listed(device_num, entries@))[i],
                    )
            }),
            code != 0 ==> is_code_error(r, code),
    {
        match check(code) {
            Ok(()) => Ok(devices_from_list(device_num, entries)),
            Err(error) => Err(error),
        }
    }

    /// Ask whether a device can be opened with the given access. The query goes
    /// with the device's record.
    pub fn is_accessible<'a>(&self, device: &'a DeviceInfo, mode: AccessMode) -> (r: (
        &'a RawDeviceInfo,
        NativeCall,
    ))
        ensures
            *r.0 == device.record,
            r.1 == (NativeCall::IsDeviceAccessible { mode: mode.raw_spec() }),
    {
        (device.as_raw(), NativeCall::IsDeviceAccessible { mode: mode.raw() })
    }

    /// Read the reply of an accessibility query.
    pub fn is_accessible_done(reply: u8) -> (r: bool)
        ensures
            r == (reply != 0),
    {
        reply != 0
    }

    /// Create and open a camera. The key matters to GigE devices only; the SDK
    /// ignores it for the others.
    pub fn open<'a>(
        &self,
        in_callback: bool,
        device: &'a DeviceInfo,
        mode: AccessMode,
        switchover_key: u16,
    ) -> (r: MvsResult<OpenAttempt<'a>>)
        ensures
            match context_refusal(in_callback) {
                Some(reason) => is_invalid_state(r, reason),
                None => r matches Ok(attempt) && {
                    &&& attempt.device_spec() == *device
                    &&& attempt.mode() == mode.raw_spec()
                    &&& attempt.switchover_key() == switchover_key
                    &&& attempt.state() is Creating
                },
            },
    {
        match reject_callback_context(in_callback) {
            Ok(()) => Ok(
                OpenAttempt {
                    device,
                    mode: mode.raw(),
                    switchover_key,
                    state: OpenState::Creating,
                },
            ),
            Err(error) => Err(error),
        }
    }

    /// Borrow the session, to account for handles and leases.
    pub fn runtime(&mut self) -> (r: &mut RuntimeCore)
        ensures
            r@ == old(self).session(),
            final(self).session() == final(r)@,
    {
        &mut self.runtime
    }

    /// Consume the entry and finalize the SDK. While cameras hold the session
    /// the entry comes back, and the caller may close them and try again. A
    /// handle whose destruction was never confirmed rules finalization out for
    /// good.
    pub fn shutdown(self) -> (r: Result<NativeCall, ShutdownError>)
        ensures
            self.session().leases != 1 ==> (r matches Err(
                ShutdownError::Recoverable { sdk, error },
            ) && sdk == self && is_invalid_state(
                Err::<(), MvsError>(error),
                "all cameras must be dropped before SDK shutdown"@,
            )),
            self.session().leases == 1 && self.session().live != 0 ==> r == Err::<
                NativeCall,
                ShutdownError,
            >(ShutdownError::Terminal(MvsError::NativeHandlesLive)),
            self.session().can_finalize() ==> r == Ok::<NativeCall, ShutdownError>(
                NativeCall::Finalize,
            ),
    {
        if self.runtime.leases() != 1 {
            return Err(
                ShutdownError::recoverable(
                    self,
                    MvsError::InvalidState("all cameras must be dropped before SDK shutdown"),
                ),
            );
        }
        if self.runtime.orphaned_native_handles_live() {
            return Err(ShutdownError::terminal(MvsError::NativeHandlesLive));
        }
        Ok(NativeCall::Finalize)
    }

    /// Settle the shutdown; a failed one is spent too.
    pub fn shutdown_done(code: i32) -> (r: Result<(), ShutdownError>)
        ensures
            code == 0 ==> r == Ok::<(), ShutdownError>(()),
            code != 0 ==> r == Err::<(), ShutdownError>(
                ShutdownError::Terminal(from_code_spec(code as u32)),
            ),
    {
        match check(code) {
            Ok(()) => Ok(()),
            Err(error) => Err(ShutdownError::terminal(error)),
        }
    }
}

/// What opening a camera comes to, for every way in which its native calls can
/// turn out: `create`, `open` and `destroy` are the codes of the three calls,
/// and `created` is the handle that the creation writes out.
pub open spec fn open_outcome(create: i32, created: usize, open: i32, destroy: i32) -> OpenState {
    let creation = OpenState::Creating.after(create, created);
    let opening = if creation is Opening {
        creation.after(open, 0)
    } else {
        creation
    };
    if opening is RollingBack {
        opening.after(destroy, 0)
    } else {
        opening
    }
}

/// The session after all of these calls.
pub open spec fn open_session(
    session: RuntimeView,
    create: i32,
    created: usize,
    open: i32,
    destroy: i32,
) -> RuntimeView {
    let creation = OpenState::Creating.after(create, created);
    let created_session = OpenState::Creating.session_after(session, create, created);
    let opening = if creation is Opening {
        creation.after(open, 0)
    } else {
        creation
    };
    opening.session_after(created_session, destroy, 0)
}

/// A camera opens exactly when its handle is created and not null and the
/// device opens. Otherwise the error is that of the call that failed, or that
/// of a null handle; and where destroying the handle fails too, both errors are
/// kept.
pub proof fn law_open_outcomes(create: i32, created: usize, open: i32, destroy: i32)
    ensures
        open_outcome(create, created, open, destroy).is_finished(),
        create == 0 && created != 0 && open == 0 <==> open_outcome(
            create,
            created,
            open,
            destroy,
        ) is Opened,
        create == 0 && created != 0 && open == 0 ==> open_outcome(create, created, open, destroy)
            == (OpenState::Opened { handle: created }),
        create == 0 && created == 0 ==> open_outcome(create, created, open, destroy) == (
        OpenState::Failed { error: MvsError::NullHandleAfterCreate }),
        create != 0 && (created == 0 || destroy == 0) ==> open_outcome(
            create,
            created,
            open,
            destroy,
        ) == (OpenState::Failed { error: from_code_spec(create as u32) }),
        create == 0 && created != 0 && open != 0 && destroy == 0 ==> open_outcome(
            create,
            created,
            open,
            destroy,
        ) == (OpenState::Failed { error: from_code_spec(open as u32) }),
        created != 0 && (create != 0 || open != 0) && destroy != 0 ==> open_outcome(
            create,
            created,
            open,
            destroy,
        ) == (OpenState::Failed {
            error: MvsError::OpenRollback {
                open: Box::new(
                    from_code_spec(
                        if create != 0 {
                            create as u32
                        } else {
                            open as u32
                        },
                    ),
                ),
                destroy: Box::new(from_code_spec(destroy as u32)),
            },
        }),
{
}

/// Opening leaves one more live handle exactly when the camera opens or the
/// handle of a failed attempt could not be destroyed, and otherwise as many as
/// before.
pub proof fn law_open_accounts_for_its_handle(
    session: RuntimeView,
    create: i32,
    created: usize,
    open: i32,
    destroy: i32,
)
    requires
        session.live < usize::MAX,
    ensures
        open_session(session, create, created, open, destroy).live == (if open_outcome(
            create,
            created,
            open,
            destroy,
        ) is Opened || created != 0 && (create != 0 || open != 0) && destroy != 0 {
            session.live + 1
        } else {
            session.live
        }),
        open_session(session, create, created, open, destroy).leases == session.leases,
{
}

/// A camera that was opened, cleaned up with a confirmed destruction and
/// released leaves the session as it was; with an unconfirmed destruction it
/// leaves a live handle, which rules finalization out.
pub proof fn law_session_after_one_camera(session: RuntimeView)
    requires
        session.live < usize::MAX,
        session.leases >= 1,
    ensures
        session.handle_created().leased().handle_destroyed().returned() == session,
        !session.handle_created().leased().returned().can_finalize(),
        !session.handle_created().leased().handle_destroyed().can_finalize(),
{
}

/// A camera is opened with what the caller asked for: once its handle is
/// created, the call to make is that of opening the device, on that handle and
/// with the caller's access mode and key unchanged, for every mode and key.
pub proof fn law_open_forwards_mode_and_key(handle: usize, mode: u32, switchover_key: u16)
    requires
        handle != 0,
    ensures
        OpenState::Creating.call(mode, switchover_key) == Some(NativeCall::CreateHandle),
        OpenState::Creating.after(0, handle).call(mode, switchover_key) matches Some(
            NativeCall::OpenDevice { handle: on, mode: with_mode, switchover_key: with_key },
        ) && on == handle && with_mode == mode && with_key == switchover_key,
        (OpenState::Opening { handle }).call(mode, switchover_key) == Some(
            NativeCall::OpenDevice { handle, mode, switchover_key },
        ),
{
}

/// Two attempts that open on the same call were asked for the same mode and
/// key, on the same handle.
pub proof fn law_open_calls_tell_modes_apart(
    handle: usize,
    other_handle: usize,
    mode: u32,
    other_mode: u32,
    key: u16,
    other_key: u16,
)
    requires
        (OpenState::Opening { handle }).call(mode, key) == (OpenState::Opening {
            handle: other_handle,
        }).call(other_mode, other_key),
    ensures
        handle == other_handle,
        mode == other_mode,
        key == other_key,
{
}

/// A failed attempt destroys the handle that was created for it and no other,
/// and a finished one makes no further call.
pub proof fn law_rollback_destroys_the_created_handle(
    handle: usize,
    failure: i32,
    error: MvsError,
    mode: u32,
    switchover_key: u16,
)
    requires
        handle != 0,
        failure != 0,
    ensures
        OpenState::Creating.after(failure, handle).call(mode, switchover_key) == Some(
            NativeCall::DestroyHandle { handle },
        ),
        (OpenState::Opening { handle }).after(failure, 0).call(mode, switchover_key) == Some(
            NativeCall::DestroyHandle { handle },
        ),
        (OpenState::RollingBack { handle, error }).call(mode, switchover_key) == Some(
            NativeCall::DestroyHandle { handle },
        ),
        OpenState::Creating.after(failure, 0).call(mode, switchover_key) is None,
        OpenState::Creating.after(0, 0).call(mode, switchover_key) is None,
        (OpenState::Opened { handle }).call(mode, switchover_key) is None,
        (OpenState::Failed { error }).call(mode, switchover_key) is None,
        (OpenState::Opened { handle }).is_finished(),
        (OpenState::Failed { error }).is_finished(),
        !OpenState::Creating.is_finished(),
        !(OpenState::Opening { handle }).is_finished(),
        !(OpenState::RollingBack { handle, error }).is_finished(),
{
}

/// What a failed attempt reports carries the codes of the calls that failed.
pub proof fn law_failed_opens_carry_their_codes(
    handle: usize,
    failure: i32,
    destroy: i32,
    error: MvsError,
)
    requires
        handle != 0,
        failure != 0,
        destroy != 0,
    ensures
        OpenState::Creating.after(failure, 0) matches OpenState::Failed { error: reported }
            && reported.raw_code_spec() == Some(failure as u32),
        OpenState::Creating.after(failure, handle) matches OpenState::RollingBack {
            handle: on,
            error: reported,
        } && on == handle && reported.raw_code_spec() == Some(failure as u32),
        (OpenState::Opening { handle }).after(failure, 0) matches OpenState::RollingBack {
            handle: on,
            error: reported,
        } && on == handle && reported.raw_code_spec() == Some(failure as u32),
        (OpenState::RollingBack { handle, error }).after(0, 0) == (OpenState::Failed { error }),
        (OpenState::RollingBack { handle, error }).after(destroy, 0) matches OpenState::Failed {
            error: MvsError::OpenRollback { open, destroy: second },
        } && *open == error && second.raw_code_spec() == Some(destroy as u32),
        (OpenState::Opening { handle }).after(0, 0) == (OpenState::Opened { handle }),
        OpenState::Creating.after(0, handle) == (OpenState::Opening { handle }),
{
    law_codes_round_trip(failure as u32);
    law_codes_round_trip(destroy as u32);
}

/// Each call of an attempt accounts for its handle: one more is live as soon as
/// a creation wrote one out, one less once its destruction is confirmed, and no
/// other call changes the session.
pub proof fn law_open_calls_account_for_the_handle(
    session: RuntimeView,
    handle: usize,
    error: MvsError,
    code: i32,
    created: usize,
)
    requires
        0 < session.live < usize::MAX,
    ensures
        created != 0 ==> OpenState::Creating.session_after(session, code, created).live
            == session.live + 1,
        created == 0 ==> OpenState::Creating.session_after(session, code, created).live
            == session.live,
        (OpenState::Opening { handle }).session_after(session, code, created) == session,
        code == 0 ==> (OpenState::RollingBack { handle, error }).session_after(
            session,
            code,
            created,
        ).live == session.live - 1,
        code != 0 ==> (OpenState::RollingBack { handle, error }).session_after(
            session,
            code,
            created,
        ).live == session.live,
        (OpenState::Opened { handle }).session_after(session, code, created) == session,
        (OpenState::Failed { error }).session_after(session, code, created) == session,
        OpenState::Creating.session_after(session, code, created).leases == session.leases,
        (OpenState::RollingBack { handle, error }).session_after(session, code, created).leases
            == session.leases,
{
}

} // verus!

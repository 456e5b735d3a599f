# mvs-sdk-rs

Safe access to the MVS machine-vision camera SDK, with its rules proved in Verus.

The library in `src/` holds what the SDK demands of its callers: which native
call an operation comes to, when an operation is refused, what a return code
means, and how the session, a camera and its callbacks move from state to state.
It makes no native call. Every operation takes two steps, a decision and a
`*_done` function for the outcome, with the native call between them.

| Module | Contents |
| --- | --- |
| `runtime` | the one initialization of a process; leases and live handles |
| `library` | `Sdk`: initialize, version, enumerate, open, shutdown |
| `camera`, `camera_state` | `Camera`: acquisition, polling, callbacks, nodes, cleanup; the model of its states |
| `cleanup` | the one cleanup attempt of a camera and what it reports |
| `callback` | callback slots and registrations, event metadata |
| `frame` | frame metadata, borrowed and owned frames, polled buffers |
| `device` | device records and the properties decoded from them |
| `node` | replies of node requests |
| `error` | the SDK's error codes, cleanup and shutdown errors |
| `native` | the native calls that the library asks for |
| `text`, `types`, `codes`, `format` | SDK text, value types, vendor constants, number rendering |

What relates several functions is stated by public proof functions whose names
begin with `law_`.

`app/` drives the library against the native SDK on Windows x86_64 MSVC and
offers the blocking API with closures, `Drop` and the standard error traits. On
other targets `Sdk::initialize` reports an unsupported platform.

Usual order of calls:

```text
Sdk::version (optional) -> Sdk::initialize -> devices(layers) -> Sdk::open(device, mode, key)
                        -> configure nodes -> callback or polling -> stop_grabbing
                        -> Camera::close -> Sdk::shutdown
```

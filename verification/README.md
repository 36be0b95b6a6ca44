# vmb

Camera capture over the Vimba X SDK, verified with Verus.

* `src/` is the verified library: the port to a backend, the camera and its
  capture session, an in-memory backend for tests, and the bookkeeping of the
  production backend, which decides which SDK call to make and what its reply
  means. The modules named `*_laws` state what holds across calls.
* `tests/` runs the library on concrete values.
* `app/` is the ordinary Rust around it: the calls into the SDK's C API, and
  handles that can be shared between threads.

What a backend is owed and what it owes is stated over its history, the sequence
of calls made through the port with their results. `port::port_state` says which
resources a history leaves claimed.

# fastly_php_runtime

The verified core of a PHP runtime for Fastly Compute@Edge.

`src/` is the library, checked by Verus:

- `request`, `response`: the client request and the response as state
  machines over the Fastly host: `app/` fetches the request once and hands
  it over with what it read of it, every answer comes from those values,
  and the body is served in order; the
  response's contracts speak of the headers and body bytes that the host
  holds;
- `sapi`: the server variables of a request and the header lines PHP emits;
- `code`, `archive`: the readers that hand PHP source to the compiler and the
  slot that keeps it between pre-initialisation and requests;
- `setup`: the WASI SDK lookup, compiler flags and configure arguments of
  the PHP build;
- `harness`: the checks of the integration harness;
- `legacy`, `response_state`: the earlier handles and the typed response
  stages;
- `host`, `buffers`, `text`: the calls into `fastly`, `bytes` and `std`
  whose contracts are trusted.

`app/` is the program around it: the PHP embed SAPI, the FastlyCE PHP
classes, the build helper and the integration harness.

The stub generator, a separate tool that runs the runtime under wasmtime
to write PHP stub files, is not part of this crate.

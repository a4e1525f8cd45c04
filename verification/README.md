# preconf_api

The errors of a preconfirmation relay API and the HTTP answer each of them
gets, verified with Verus.

- `src/error.rs`: `PreconfApiError`, its message (`to_string`) and its
  response (`into_response`), each stated exactly over spec functions, with
  the laws on which statuses the errors get.
- `src/status.rs`: the HTTP statuses used and their codes.
- `src/text.rs`: decimal, `bool` and string-list rendering, proved against
  their spec functions (numbers read back to themselves).
- `app/lib.rs`: the error as handlers raise it (with the transport, framework,
  JSON and I/O errors themselves) and its `axum` `IntoResponse`, which sends
  what the library computes.

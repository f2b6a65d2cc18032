# rust_poc_ai_model_comparison

A small HTTP service that forwards a URL to a third party API and answers with
what that API returned.

- `src/` is the verified library: the request and response bodies, the route
  tables of the foo and health controllers, the check of the third party URL,
  the judgement of the third party's reply, and the answer of the foo
  end-points, each with its contract.
- `app/` holds the axum routers and handlers, the serde forms of the bodies and
  the HTTP client call; it acts on what the library decides.
- `tests/` runs the library on concrete values.

# qqbot_sdk

A software development kit for QQ bots that receive events through a webhook
and answer through the QQ bot open API, written in Verus.

## Layout

- `src/` is the verified library. Every executable function has a contract,
  and the properties that span functions are public proof functions named
  `law_*`.
  - `openapi`, `encoding`, `templates`: request paths and URLs of the open API,
    percent-encoding of path and query values, the official path templates,
    and the judgement of access-token answers.
  - `webhook`, `error`: what the webhook endpoint does with a request (JSON
    check, hook, signature mode) and how a failure is answered.
  - `config`, `context`, `dispatch`, `replying`: application configuration,
    shared dependencies, command routing and reply messages.
  - `bot`: a ready-made command bot: command parsing, allow and deny lists, a
    bounded key-value store, a repeat filter and its settings.
  - `text`, `words`: character-level helpers, splitting and trimming.
- `tests/` runs the library on concrete values.
- `app/` is the runtime around it: HTTP client and server, files, clock,
  environment, logging, and the registration of command handlers.

# intern_copilot

A LinkedIn outreach assistant: it finds a person's e-mail address, scrapes
their profile, and runs a chain of language-model prompts that writes a
personalised e-mail.

`src/` is the verified library (Verus):

- `json` — the JSON model the services' answers are read through.
- `text`, `encoding` — white space and trimming, decimal numerals,
  percent-encoding (`urlencoding`) and pretty-printing (`serde_json`).
- `http` — the requests the library asks to have sent and the replies it is given.
- `lookup`, `apis::appollo`, `appollo`, `zeliq`, `lead_iq`, `snov` — the
  e-mail finders, each a small state machine: request, status, body, address.
- `pipeline::parsing` — condenses an Apify profile; `pipeline::email_finder`
  — typed or looked-up address; `pipeline::outreach` — the four-step prompt
  chain; `apis::gpt` — one chat request and its answer.
- `llm_calls` — the assistant (`InternCopilot`) and its finder (`EmailAPI`).

`app/` is the command-line program: it does the network and file work the
library asks for (`reqwest`, `open_ai`, `tokio`) and prints the result.

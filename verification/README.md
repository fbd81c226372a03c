# xinshang

The core of the LOVEAI backend as a Verus library: everything that decides or
computes is verified, and an ordinary HTTP service stands around it.

- `src/` is the library.
  - `text`, `json`, `table`, `settings`, `clock`, `ids`: plain data and the few
    things taken from outside.
  - `prompt`, `inspire`, `quiz`: what is sent to the language model.
  - `ai`, `ask`, `image`: which vendor is asked, how often, and what comes of it.
  - `frame`, `asr`: the binary protocol of the speech recogniser and the state of
    a voice connection.
  - `auth`, `access`: accounts, tokens, and who is asking.
  - `usage`, `subscription`, `pay`: counts, memberships and plans.
  - `serve`, `billing`, `reply`: what is answered to requests.
- `app/` is the service: routes, files, HTTP and WebSocket connections.
- `tests/` runs the library.

Functions whose names start with `law_` are proofs of what holds of the library
as a whole. What is believed of other crates and of the standard library stands
in the functions marked `external_body`, each with a comment that says what.

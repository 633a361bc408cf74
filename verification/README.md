# fr_acc

Account endpoints (sign-up, login, password change, password recovery, and
verification by one-time code or emailed link) for an actix-web server built
on `fr-rust`.

The decisions of every endpoint live in the verified library (`src/`): each
endpoint is a step function that, from the phase a request is in and the
answer to the action it last asked for, picks the next action (a database
read or write, hashing, a one-time code, a cache write, an email, or the
answer to the client). Link and login tokens are made and read inside the
library, through `fr-rust`.

- `src/protocol.rs`: actions, events and answers.
- `src/workflow.rs`: the account workflow shared by the sign-up, login,
  password-change and recovery endpoints.
- `src/login.rs`, `src/signup.rs`, `src/change_password.rs`,
  `src/forgotten_password.rs`, `src/verification.rs`: the endpoints.
- `src/services.rs`: the calls into `fr-rust` (trusted).
- `src/laws.rs`: properties proved over all routes and requests.
- `src/utils.rs`: text formatting.
- `app/`: the server, which performs the actions and speaks HTTP.

# dialogue

Dialogues in which several language models take turns, with a user listening in.

- `controller`: who takes part, whose turn it is, what was said, and what listeners are told.
- `turn_order`: the order of turns round the table, and what it guarantees.
- `app`: starting, changing, continuing and stopping a dialogue from the application.
- `messages`: what a participant is told of a conversation.
- `dialogue_laws`, `app_laws`: what holds of every dialogue and every request.
- `participant`, `config`, `chat`, `conversation`, `overlay`, `provider`, `events`, `clock`,
  `text`: the data that these work on.

Everything under `src/` is verified with Verus. Two things are taken from outside: the channel that
carries events (tokio, in `events`) and the clock (chrono, in `clock`); what is assumed of them
stands at the functions that call them. `app/` draws identifiers, makes providers, streams
responses and stores settings.

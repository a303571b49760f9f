# live_speech

The rules of two clients that send live speech to a service and show what comes back,
written and proved in Verus.

- The speech client streams the microphone to Google Speech-to-Text V2 as mono 16-bit PCM
  at 16000 Hz and shows interim and final transcripts.
- The realtime client holds an OpenAI Realtime session over a websocket, decides when a turn
  of speech is over, and prints the translation that comes back.

## Layout

- `src/` is the library. Its functions are verified against their contracts, but for the few
  named under "What is trusted"; the proof functions whose names start with `law_` state what
  holds over many calls.
- `tests/` runs the library on concrete values.
- `app/` is the program: sockets, the microphone, the environment, floating point.

## Environment

The speech client reads `GOOGLE_CLOUD_PROJECT`, and `GOOGLE_API_TOKEN` or
`GOOGLE_ACCESS_TOKEN`; `GOOGLE_CLOUD_LOCATION` (`europe-west4` by default) and
`GOOGLE_CLOUD_SPEECH_ENDPOINT` may be set too. The realtime client, which runs with
`realtime` as the first argument, reads `OPENAI_API_KEY`.

## What is trusted

Calls into `base64`, `serde_json`, `tonic` and `http`, and into two functions of `str`, stand
behind small functions whose contracts are taken on trust. Each says in its doc comment what
it claims.

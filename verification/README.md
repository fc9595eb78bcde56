# channel_points

A Twitch channel-points overlay: when a viewer redeems one of the selected
custom rewards, the overlay page served on localhost is told to start.

- `src/` is the verified library (Verus): the OAuth authorization URL, the
  parsing of the OAuth redirect, token expiry and classification, the token
  endpoint forms, the EventSub websocket session as a state machine, the
  subscription request and reply handling, and the answers of the overlay
  server. Laws about these are proved as `law_*` proof functions.
- `app/` is the program around it: configuration and token files, the
  browser, the redirect listener, HTTP requests, the websocket and the axum
  server. It hands the library plain values and performs the actions the
  library decides.
- `tests/` exercises the library on concrete values.

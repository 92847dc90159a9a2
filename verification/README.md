# webrtc_signaling

The request handling of a WebRTC signaling server, verified with Verus.

- `src/auth.rs`: GitHub OAuth2 sign-in. The CSRF check that decides whether a
  token request is made, the requests sent to GitHub, the user registry that a
  sign-up fills and that sessions are resolved against, and the authorization
  URL built through the `oauth2` crate.
- `src/web.rs` (with `src/web/*.rs` for the call and answer shapes): the
  handlers' decisions. `api` is the shared key-value store that signed-in
  peers use to exchange offers, answers and candidates; `login`, `callback`
  and `callback_authenticated` drive the sign-in round trip.
- `app/`: the axum server around the library: configuration, sessions,
  network calls to GitHub, JSON (de)serialization and routing.

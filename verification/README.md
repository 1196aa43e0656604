# sonata

Sonata publishes what you are listening to as a Discord Rich Presence. A
media provider (the operating system's media session, or a browser extension
over Native Messaging) emits media events; the Discord publisher folds them
into a snapshot of the session and shows, updates or clears the activity.

- `src/` is the library, verified with Verus: the media model and events,
  the configuration and its validation, the Native Messaging framing and wire
  protocol, the browser session's idle timer, the MPRIS and GSMTC
  conversions, the activity that Discord shows, the Discord connection with
  its reconnection, and the publisher's state machine with its laws.
- `app/` is the daemon around it: reading `sonata.toml`, the async provider
  and publisher traits, stdin framing, D-Bus and WinRT plumbing, and the main
  loop.
- `tests/` exercise the library on concrete values.

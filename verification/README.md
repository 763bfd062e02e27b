# kilam_launcher

The verified core of the KILAM event launcher, written in Verus.

- `src/` is the library. Its functions carry `requires`/`ensures` contracts
  proved by Verus, except a few trusted wrappers (marked
  `#[verifier::external_body]`) whose contracts are believed, not proved:
  the MD5, SHA-1 and SHA-256 digests, hex encoding, UUID text, zip decoding,
  URL query parsing, `Path::join`, `Path::with_extension`, `String::push` and
  `char::is_alphanumeric`. Each names the outside function it calls.
  The proved functions are:
  - `auth`: username rules, the deterministic offline UUID (MD5 of
    `OfflinePlayer:<name>`, marked version 3), session precedence, the
    strings of the Microsoft sign-in and the code of its redirect.
  - `event_store`: the event model, whitelist filtering and event status.
  - `downloader`: asset paths, progress reports, SHA-256 verification and the
    decision whether an installed event is complete.
  - `client_provisioner`: the Mojang/Fabric file plan, Maven paths, SHA-1
    checks, platform natives and the files a native archive unpacks to.
  - `launcher`: choosing Java, the classpath and the game's command line, and
    which event may be launched.
  - `error`: the launcher-wide error, its family name and message.
  - `digest`, `text`, `assoc`: digests and hex, string utilities, and
    text-keyed lookup tables.
- `tests/` exercises the library on concrete values.
- `app/` is the unverified shell: HTTP, files, the settings store, the game
  process and the JSON shapes, each delegating its decisions to the library.

# homestat

The verified core of a home temperature/humidity station. A Raspberry Pi
Pico W probe reads a DHT11 sensor and sends its readings to a server, which
stores them in SQLite.

`src/` is a Verus library. Its functions carry contracts that Verus
proves, except a few small wrappers around outside crates (chrono's date
range, RFC 3339 text and time-span arithmetic, `hex::decode`, Blake2b,
camino's `strip_prefix`, `String::push`): those are marked
`#[verifier::external_body]`, and their contracts are trusted, not proved.
The modules:

- `dht11`: pulse-length decoding (`bits`), the timed read protocol as a
  state machine (`reader`), the untimed pulse capture (`capture`), and the
  reading types of the probe firmwares (`basic`, `typed`).
- `wire`: the message a probe sends and its text rendering; `text` holds the
  number formatting it is built on, `timelog` the log timestamps.
- `flash`, `hexstring`: where the wifi firmware blobs go in flash, the
  linker symbols for them, and the hex strings of the metadata file.
- `db`, `server`: what a database row stands for, what an insert stores,
  paging, and what the server does with each decoded message.
- `net`, `entropy`: the probe's network loop as a state machine, and the
  mixing of entropy into random seeds.
- `tasks`: text computations of the developer tasks.

`app/` is the unverified shell around it: the server's TCP and database
I/O, serde/postcard/JSON encodings, and the developer command-line tasks
(`homestat xtask ...`).

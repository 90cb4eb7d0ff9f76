# mimo

A small team work-hour tracker (tasks, leave, overtime and statutory
holidays) served over HTTP, with its decision logic verified by Verus.

- `src/` is the verified library:
  - `records.rs`: accounts and holidays as stored, and the public profile of
    an account;
  - `schedule.rs`: the daily 01:00 holiday refresh, and how long to sleep;
  - `holiday_feed.rs`: the yearly holiday feed: its address, the decisions
    taken while fetching it, and the entries it gives;
  - `text.rs`: decimal numerals and text search;
  - `password.rs`: bcrypt hashing and checking of account passwords;
  - `api.rs`: the answers of the HTTP API: sign-in gate, registration, login
    and the replies to record changes and listings.
- `app/` is the server around it: actix-web routes and sessions, the SQLite
  database (rusqlite), the HTTP client for the holiday feed (reqwest), the
  clock and the sleeping scheduler task.
- `tests/` runs the library on concrete values.

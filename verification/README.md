# gamba

A Discord economy bot ("Whatsapp Casino"): users earn credits by talking and by
a daily claim, gamble them on a three-wheel slot machine, and compare balances
on leaderboards.

- `src/` is the verified library (Verus): argument parsing and command
  routing, the currency rules (balance updates, the daily streak, cool-downs,
  the talk reward), the slot machine's wheels, payout rows and settlement,
  leaderboard queries, and every text the bot writes.
- `app/` is the bot itself: Discord (serenity), SQLite (sqlx) and Redis I/O,
  and the floating-point payout product, around the library's decisions.
- `tests/` runs the library on concrete values.

# enchanting

The rules of the enchanting mini-game of a Telegram dick-growing bot,
verified with Verus.

- `src/` is the library: the settings and their parsing (`config`), the
  rows it works on (`repo`, `commands`), the decisions of `/ench`, `/enchb`
  (`ench`), `/bless` (`bless`), `/sex` and its button (`sex`, `callback`),
  the gnome raids and their schedule (`gnomes`), and the farm rollback
  announcer (`rollback`). `text` and `random` hold what the standard
  library, `rand` and `chrono` are trusted to do.
- `app/` is the Telegram and database side: it reads the settings, runs the
  queries, sends the messages, runs the background tasks, and leaves every
  decision to the library. What the rest of the bot provides (players,
  chats, dicks, translations) comes in through the `Host` trait.
- `tests/` runs the library on concrete values.

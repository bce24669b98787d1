# pokerole_discord_bot

A Discord bot for a Pokerole role-playing server, built around a library whose
game rules and answers are proved correct with Verus.

## Layout

- `src/` — the verified library. Every function states its behaviour in
  `requires`/`ensures` over mathematical models (`Seq`, `int`, views), and the
  laws that relate several functions are stated and proved as `law_*` proof
  functions.
  - `roll` — dice queries (`2d6+3`), curses, and the roll report.
  - `character_stats`, `sheet`, `characters` — stats, invested points and limit
    breaks, the character sheet, the action log and name validation.
  - `encounter` — random wild Pokemon and their descriptions.
  - `open_box` — the treasure box table and its weighted draw.
  - `purchases`, `trades`, `edits`, `initialization`, `rewards`, `roster` —
    the decisions behind the character commands.
  - `autocompletion`, `pokedex`, `efficiency`, `sprites`, `emoji_registry`,
    `hp_modifier`, `metronome`, `poll`, `quests`, `role_reactions`, `scale`,
    `season`, `wallets`, `player_info`, `list_characters` — the other
    commands' logic and texts.
  - `text`, `random`, `game`, `cache`, `commands`, `errors`, `emoji` — shared
    pieces. Calls into `rand`, `regex`, `chrono`, `image` and std's Unicode
    functions sit behind small trusted wrappers whose contracts say what those
    calls promise.
- `app/` — a partial bot around the library: the commands that need only the
  SQLite database and Discord (rolls, polls, money, purchases, quests, sparring,
  emoji upkeep, sprite cropping and more). The commands that read the game's
  species, move and item data are not wired up.
- `tests/` — tests of the library on concrete values.

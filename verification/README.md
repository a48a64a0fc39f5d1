# voice_daemon

The commands of a Discord bot that moderates voice channels: `ping`, `summon_daemon`, `warn`,
`daemon_altar`, `chaos_ritual` and `appease`.

`src/` is a verified library. A command is a function there: it changes what the daemon remembers
and returns a script, the steps still to take outside (messages, saving, waking the enforcement
task) with what happens when one of them fails. The contracts state both exactly. `src/laws/` holds
what is proved of the commands taken together.

`app/` is the Discord side. It turns slash commands into calls of the library and carries the
scripts out. A deployment supplies how warnings are counted, weighed and saved (`Backend`).

| module | holds |
| --- | --- |
| `actions` | enforcements, notification methods, and a moderator's words for them |
| `levels` | the chaos factor and the warning score, as IEEE 754 bit patterns |
| `clock`, `names` | moments (`chrono`), identifiers (`uuid`) and mentions (`serenity`) |
| `records`, `store` | what the daemon remembers, in `dashmap` maps |
| `messages`, `script` | what a command has done outside, and in which order |
| `issue` | recording a warning with its enforcement |
| `commands` | the commands |
| `laws` | what holds of them together |

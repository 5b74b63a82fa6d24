# mochi

The logic of a tiling window manager, verified with Verus.

Nothing here talks to the operating system. A daemon owns one `State`, feeds
events into it, and gets a `Changes` back that says which windows to move, show,
hide or focus. What a command does to the state, and what it reports, is stated
in its contract and proved.

## Layout

| Module | What it holds |
|---|---|
| `geometry` | rectangles, axes, directions, offsets |
| `layout` | layouts as functions from an area and a count to rectangles |
| `model` | the tree of monitors, workspaces, containers and windows |
| `ops` | every command, as a method on `State` |
| `rules` | which windows to ignore, float or tile |
| `config` | the configuration, and which entry configures which monitor |
| `animation` | how many frames, and which rectangle each one has |
| `client` | the commands on the wire, the command line, framing, subscriptions |
| `error`, `text`, `seqs` | errors, and helpers on texts and sequences |

Contracts speak of views: every type has a ghost counterpart (`State` has
`StateView`) and every command has a spec function of the same name on it. What
holds across commands stands in `layout::tiling`, `layout::room`, `model::laws`,
`model::census`, `ops::laws`, `ops::census`, `ops::rescue`, `ops::resizing` and
beside the functions it is about.

Regular expressions come from the `regex` crate, and the state document from
`serde_json`. Their contracts are believed, not proved; each says in its doc
comment what it claims.

## The app

`app/` is ordinary Rust around the library: the JSON documents, the easing
curves, and the named pipes on Windows.

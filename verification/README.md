# slate-profile-sync

Profile sync for Slate: publishing a device's settings, receiving the settings of trusted
devices, keeping membership logs, choosing retention providers, and deciding which
discovered peers to trust.

The library in `src/` is written in Verus. It holds the decisions of profile sync as plain
values with contracts: what may be published, which change a device head describes, how
published objects are listed, how a sync cycle is checked against its health policy, how
retention providers are selected, how membership logs are validated, which discovered peers
are trusted, and how the command-line tools read their arguments.

- `text`, `object_ids`: string helpers and duplicate-free object id lists.
- `membership`, `membership_validation`: membership log planning, building and validation.
- `health`, `policy`: health reports, their issues, and the cycle policy.
- `publish`: settings publication checks, device heads, history order, the publish loop.
- `credentials`: content key, signer and trusted-device checks of a cycle.
- `retention`, `scheduling`, `runs`: provider retention, provider selection, cycle results.
- `discovery`: peer trust checks, freshness, capability requirements, trust reports.
- `cli`: integer and protocol parsing and the argument parsers of the two tools.
- `errors`: the error types and their messages.

`app/` is ordinary Rust around the library: the bridge to the broadweb daemon and the profile
store (`slate_broadwebd`, `slate_storage`), JSON encoding, file and console I/O, and the two
tools' entry points.

# xet_progress

Progress tracking for groups of file transfers, written in Rust and verified with Verus.

A `GroupProgress` aggregates byte counters over its items. Each item is advanced through an
`ItemProgressUpdater`, which keeps the counters of the item and of its group in step. Snapshots of a
group can be compared poll by poll: a `GroupBridgeState` or an `ItemBridgeState` turns them into the
increments that callback-style consumers expect.

## Layout

| module | contents |
| --- | --- |
| `model` | the mathematical model: what the counters are and what each operation does to them |
| `item`, `registry` | the counters of one item; the items of a group |
| `group`, `updater` | groups, and the updates that go through them |
| `report`, `update` | snapshots and incremental updates |
| `shown` | what is shown of items, groups and updaters for debugging |
| `bridge` | from successive snapshots to incremental updates |
| `group_laws`, `bridge_laws` | what holds whatever is done, proved of the model |

The library is sequential: an updater borrows its group for as long as it is used, and is taken up
again later with its `ItemHandle`. `app/` shares a group between threads behind a lock, attaches a
speed estimator to it, and polls it from a tokio task. Since whole operations take turns there, what
is proved of sequences of operations holds of concurrent use as well.

Rates are of a type parameter `R` throughout. They come from the estimator, are withheld until
enough reports have been drawn, and are carried along, but nothing is computed with them.

Byte counters wrap around at 2^64. The laws say where that matters.

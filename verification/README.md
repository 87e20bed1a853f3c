# zkstate

Shares an object between processes through ZooKeeper. Every process reads its own copy,
subscribes to the changes, and updates the object under a lock.

- `src/` decides: when a copy is fresh enough to be read, what changed when the object is
  pulled, how an update takes the lock, edits, writes and lets go, and how an instance
  starts. It is verified with [Verus](https://github.com/verus-lang/verus): every function
  has a contract, and the promises that span several functions are the proof functions
  whose names start with `law_`.
- `app/` acts: it holds the ZooKeeper client, the locks and the threads, performs what the
  library asks for, and hands the answers back.
- `tests/` runs the library.

## Reads

- `read` gives the local copy, and fails if it was not verified against ZooKeeper in the
  last 30 seconds.
- `c_read` compares the local version with the one in ZooKeeper first, and pulls the object
  if they differ, or if the local copy was edited since it was pulled.
- `d_read` gives the local copy however old it is.

## Writes

1. An update is written only over the version that was edited. If ZooKeeper has another
   version, the update fails with `StaleWrite`.
2. Only one update takes place at a time: an update edits and writes only while it holds
   the write lock in ZooKeeper.

## Update stream

Changes, local or remote, are reported as `Added`, `Removed` or `Modified`, with the keys
that lead to the place and the values. What did not change is not reported. No reader sees
a pulled object before all of its changes are on the stream, but it may be seen before they
are consumed.

## Nodes

```text
/<dir>                  where the data is stored
/<dir>/payload          the object, as JSON
/<dir>/listeners        ephemeral records with the ids of every active listener
/<dir>/write_lock       the latch that writers queue at
```

An instance starts only if its listener record could be made.

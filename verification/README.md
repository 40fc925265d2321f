# doppelganger

A file indexer: it walks a directory tree, hashes every regular file with
SHA-256 and records path, size, modification time and digest in an SQLite
database, so that duplicate files can be found by their digests.

- `src/` is the verified library (Verus): the digest computation fed chunk by
  chunk, the hex form of digests, which walk entries count as files, the values
  bound into the database statements and when a stored digest is current, and
  the decision logic of the database and hash workers of the pipelines, written
  as state machines whose transitions are specified and whose properties are
  proved (`lemma_*` proof functions).
- `app/` is the program around it: command line, logging, the directory walk,
  file reads, threads, channels and the SQLite connection.
- `tests/` runs the library on concrete values.

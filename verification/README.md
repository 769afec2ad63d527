# mount_sync

The rules of a sync mount: an encrypted folder and a decrypted view of it that are kept together.

`src/` is the library, verified with Verus. It holds no file handle and reads no clock: it is told
what was found on both sides and at what time, and says what is to be done and what is to be
remembered.

- Values: `path`, `path_order`, `text`, `table`, `sorting`, `tracker`, `errors`.
- Names and contents: `names`, `local_only`, `exclusion`, `header`, `preview`, `sparse`, `digest`,
  `staging`, `config`.
- One file or directory: `decrypt`, `encrypt`, `directories`, `scan`, `writeback`, `course`.
- What is gone from one side: `missing`, `deletion`, `orphans`, `open_unlinked`, `retention`.
- What waits: `pending`, `held`, `space`, `journal`, `settings`.
- Copies and conflicts: `conflicts`, `resolution`, `records`, `reconcile`.
- The whole: `sync`, `round`, `run`, `runner`, `status`, `safety`.
- Laws that span several of these: `path_laws`, `name_laws`, `deletion_laws`, and the public proof functions
  beside the functions that they are about.

`app/` carries out what the library decides: file system, permissions, extended attributes,
watchers, journals as JSON, and the client that encrypts and decrypts.

`tests/` runs the library on concrete values.

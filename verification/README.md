# bild

A small self-hosted image uploader: authenticated uploads are sniffed,
converted to WebP (GIFs to animated WebP) and served back under short random
names; a periodic collector deletes old uploads.

- `src/` is the verified library (Verus): request authentication
  (`api_key`), upload admission (`upload`), settings (`config`), the
  conversion pipeline and its frame timing (`convert`), stored-file paths
  (`paths`), route answers (`routes`, and `legacy` for the first version of
  the site), the collector's rule (`collector`) and token generation
  (`token`).
- `app/` runs the Rocket servers and the token generator around it:
  `bild auth` writes a new token, `bild legacy` starts the first site, and
  without argument the upload server starts.
- `tests/` exercises the library with the real outside crates.

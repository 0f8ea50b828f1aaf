# suwayomi_source

A manga source for Aidoku-style readers (such as Rakuyomi on KOReader) backed
by a Suwayomi server, written in Verus.

- `src/` is the verified library: the GraphQL query texts and their
  compaction, the request framing (JSON body, headers, Basic authorization
  with base64), decimal writing and reading of IDs, the conversion of the
  server's answers into the reader's manga, chapters and pages, and the
  source's decisions (settings, filters, listing routes, paging, the home
  screen). Each public function has a contract; the laws (base64 and decimal
  round trips, the authorization header decoding back to the credentials,
  keys reading back as IDs, paging, filters) are proof functions beside the
  functions they speak of.
- `app/` is the thin layer that talks to the reader's SDK and the network:
  reading settings, sending requests, reading JSON answers with serde, and
  turning the library's entries into the SDK's types.
- `tests/` runs the library on concrete values.

# buenotea

Stock-screening studies (invite list, technical timing, fundamentals, market
regime, sentiment) with their decision logic verified by Verus.

- `src/` — the verified library: the invite-list safety screening, the volume
  analysis of the timing study, regime classification and confidence, analyst
  rating tallies and signals of the sentiment study, fundamentals reference
  data, batching of fetches, URL and message construction for the data
  sources and the Supabase storage, and the interpretation of their answers.
  Each public function states its result in `ensures`; the `law_*` proof
  functions state properties that relate several of them.
- `tests/` — tests of the library on concrete values.
- `app/` — the command-line program: HTTP fetches, JSON decoding, storage
  requests, and the floating-point indicators and scores, around the library.

# corpus_preproc

Preprocessing of text corpora for word embeddings: raw bytes are decoded
(encoding detected with `chardetng`), HTML is reduced to its text
(`kuchiki`), characters are normalized (NFKC, separators, marks, case) and
words are normalized (UAX #29 sentences, words between separators, punctuation trimmed, odd
words replaced by `<unk>`).

- `src/` is the library, verified with Verus: `ucd` (Unicode character
  classes), `normalizers::{encoding, character, word}`, `cleaners::html`,
  `pipeline` (the steps in order) and `server` (the decisions of the HTTP
  service on a multipart form). `text` holds the string helpers.
- `app/` is the program: the command line (`clean`, over files and
  directories, in parallel) and the HTTP service (`serve`), with the option
  types that carry `clap` and `serde` derives.
- `tests/` exercises the library on concrete inputs.

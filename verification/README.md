# lib: verified parser combinators for a trading service's logs

A small parser-combinator library over `&str` and the parsers of a log format
built with it, verified with Verus.

- `src/parse/mod.rs`: the `Parser` trait (a parser's meaning is the spec
  function `spec_parse`, from the input text to the text left over and the
  model of the value), `Parsable` (types that have a parser), `Mapper` (the
  functions that `map` applies) and `Model` (what a parsed value stands for).
- `src/parse/text.rs`: whitespace, the few `str`/`String` operations that the
  parsers call, and facts about suffixes.
- `src/parse/combinators.rs`: quoting and unquoting, `tag`, `strip_whitespace`,
  `delimited`, `map`, `preceded`, `all*`, `key_value`, `permutation*`, `list`,
  `alt*`, `take`.
- `src/parse/stdp.rs`: numbers (`U32`, `I32`, hexadecimal `Byte`) and the
  `NonZeroU32` / `NonZeroI32` types they produce.
- `src/parse/types.rs`, `src/parse/log_types.rs`: the data of the log format
  and their parsers.
- `src/parse/laws.rs`: properties that relate several functions, such as
  unquoting what was quoted.

Every parser's `parse` is proved to return exactly what its `spec_parse`
says, and every parser leaves a suffix of its input.

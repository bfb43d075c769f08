# Route paths

Parses Discord REST API route strings (such as `/channels/123/messages`) into
the `Path` that identifies their ratelimit bucket. Every function is proved
against its contract by Verus, except one trusted wrapper: `parse_u64` in
`src/decimal.rs` calls `u64`'s `FromStr`, and its contract states what the
standard library documents of it.

- `src/segments.rs` — splitting a route at `/` (a leading `/` is ignored).
- `src/decimal.rs` — the decimal numerals that `u64`'s `FromStr` accepts.
- `src/path.rs` — the `Path` enum, the route table as spec functions, and
  `Path::from_str` / `Path::try_from`, proved to follow the table.
- `src/error.rs` — `PathParseError` and its kinds.
- `src/laws.rs` — properties proved for every route string.
- `app/lib.rs` — a copy of the error type with `Display` and `std::error::Error`.

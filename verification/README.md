# poc_typeinfo_new_deser

A serialization framework with a JSON serializer, verified with Verus.

Values describe themselves to a serializer through the `Ser` trait; a
serializer implements `Serializer`, whose compound values (sequences, tuples,
maps, structs and their enum-variant forms) are written through state objects
that take the serializer for each element and finish with `end`.

Every type that is written has a `Ser` impl: the library provides them for
the primitives, strings, copy-on-write strings and slices, references and
smart pointers, options, slices, arrays, vectors, `VecDeque`, tuples of up
to twenty fields, and `BTreeSet` and `BTreeMap` with integer keys (written
in increasing key order), and a struct or
enum of your own gets one written by hand from the `Serializer` methods. No
value is serialized from its type's structure alone: reading a type's fields
at compile time needs nightly reflection and raw-pointer access to the
fields, and neither can stand in verified code.

What is proved:

- every `Ser` impl names the value it writes in the data model (`data::Data`),
  and writing it changes the serializer exactly as the serializer's
  `SerializerBase::writes` says;
- the JSON serializer appends the UTF-8 encoding of `json_text::json_text(d)`
  for a value `d`, and never fails;
- its buffer keeps holding valid UTF-8 text across writes, also while a
  compound value is half written; length hints leave no trace; a tuple
  writes as a sequence; a map entry writes as its key then its value; an
  option writes what it holds; a character writes as the one-character
  string; strings escape character by character (every control character
  below U+0020 included), read back after escaping and are always JSON
  string literals; integers read back from their decimal text (`laws.rs`);
  a `BTreeSet` or `BTreeMap` with integer keys is listed with each element
  or entry once, in increasing key order (`ordered.rs`).

A value must not fail on a serializer that never fails: the `Ser` contract
owes `Ok` there, so nothing written to the JSON serializer fails. Map keys are
written as their own JSON text, so a map gives a JSON object only where its
keys are strings.

Layout:

- `src/lib.rs` – the traits.
- `src/data.rs` – the data model.
- `src/json_text.rs` – the JSON text of a data-model value.
- `src/write.rs` – UTF-8, decimal and escaping writers with their proofs.
- `src/json.rs` – the JSON serializer.
- `src/impls.rs` – `Ser` for standard types.
- `src/ordered.rs` – `Ser` for `BTreeSet` and `BTreeMap` over keys whose
  order is that of an integer rank (`OrderedKey`).
- `src/laws.rs` – properties that span calls.
- `app/lib.rs` – writing to `io::Write`, floating point, and std types that
  are written through their `Display` text or listed first.

Values of the standard collections whose iteration order the library cannot
state (hash maps and sets, B-tree maps and sets over other keys, linked
lists, binary heaps) are listed by `app/` and written by the verified `Vec`
and `serialize_map_entries` code.

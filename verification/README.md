# typestate_builder

A verified generator of typestate builders, the logic of a `#[derive(Builder)]`.

For a struct `S` with named fields it writes:

- `SBuilder<..>`, with one type parameter per field that has no `#[default(..)]`;
- `new()`, in which every such field is `()` and every default field holds its default;
- one `with_<field>` setter per field: a field without a default changes its
  type parameter to the field's type; a default field keeps the builder's type;
  `Arc<dyn ..>` and `Box<dyn ..>` fields take any value with the trait bounds and wrap it;
- `build()`, defined only for the builder whose parameters are all the fields' types;
- an error instead, when the item is not a struct with named fields, or when a
  field's `#[default]` attribute does not hold exactly one expression;
- `SIncomplete`, when some field is `#[incomplete]` without a default: the
  builder with exactly those fields left `()`.

Layout:

- `src/model.rs`: the struct as plain values (names, type text and shape, attributes);
- `src/attrs.rs`, `src/analysis.rs`, `src/categorize.rs`: reading attributes and types;
- `src/expansion.rs`: what the generated code is, as specification;
- `src/generate.rs`: the generator, proved to produce exactly that;
- `src/laws.rs`: properties of every generated builder (any order of all setters
  reaches `build`, the incomplete alias is the state without its fields, distinct
  snake_case fields get distinct parameters, the last write to a field wins, ...);
- `src/parse.rs`: reading the item's source text with syn into the model;
- `app/`: the derive around it (tokens to text and back, errors placed on their tokens).

The typestate laws read a setter's result by substituting the builder's
arguments for its type parameters. That is what the generated code means as
long as no field's type is written as one of the builder's parameter names:
with `log_level: LogLevel`, `LogLevel` inside the generated `impl<..>` is the
parameter, that setter does not change the builder's type, and `build` cannot
be reached.

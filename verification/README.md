# ib_async_dx

ib_async's model and names in Rust spelling, with its logic verified by Verus.

- `src/` is the verified library: events and subscriptions, live values, the
  client's session and request lanes, the id space, startup fetch flags,
  `loop_until`'s decisions, the values a request carries to the engine, the
  ticker key of a contract, a contract's trading sessions (the hours text
  read as Python's `strptime` reads it, then placed in the zone by jiff),
  connection statistics, and Flex reports (address check, XML tree, the
  web service's answers).
- `app/` holds what touches the world: the Flex web service, files, the
  environment and the clock; and the contract and scanner types whose
  fields are floating-point numbers, built on the library's rules.
- `tests/` runs the library on concrete values.

# liftcalc

A small web application that tells how much you lifted in funny units ("100 lbs is
90.72 burgers"). This crate is its verified core, written with Verus.

- `src/pages.rs`, `src/ui.rs`, `src/session.rs`: the front end's routes, navigation,
  form rules, conversion history and login session.
- `src/api.rs`, `src/text.rs`: the client's endpoints and bearer header.
- `src/interface.rs`: the values exchanged with the server.
- `src/measures.rs`, `src/routes.rs`: the server's measure rules, its request workflows
  (creating a measure, picking a random one, loading one by id) as step functions, and
  its route table.
- `app/`: JSON shapes, floating-point conversion, and the loops that drive the workflows
  against a store.

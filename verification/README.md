# wishlist

A wish list service: users keep wishes, share them publicly or with friends,
and manage friendships. The library in `src/` holds the service's rules and is
verified with Verus; `app/` is the Rocket server around it, which reads and
writes the PostgreSQL tables with Diesel and renders Tera templates.

- `src/models.rs`: the rows of the `users`, `wish` and `friendship` tables, the
  forms, and the session restored from the `user_id` cookie.
- `src/text.rs`: the decimal text of an id and reading it back.
- `src/query.rs`, `src/columns.rs`: conditions and assignments on table rows,
  selection and update.
- `src/services/`: the handlers: the rows they write and the pages they show.
- `src/laws.rs`: properties that span the handlers.

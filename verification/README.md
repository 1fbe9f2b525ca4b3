# media_poster

A small cross-posting tool for Reddit and Mastodon. The library (`src/`)
builds every request the tool sends and reads every answer it gets, with
contracts proved by Verus; `app/` holds the program that reads the
environment, makes the web requests and prints the results.

- `src/media.rs`: the services and their names.
- `src/error.rs`: the errors and the messages they display.
- `src/mastodon.rs`: statuses, their visibility and the form that creates one.
- `src/reddit/models.rs`: Reddit posts and the fields each kind of post sends.
- `src/reddit/form.rs`: forms that give each key one value, held in a `serde_json` object, and their laws.
- `src/reddit/json_object.rs`: the trusted wrappers around `serde_json::Map`.
- `src/reddit/order.rs`: the order of keys, lookups in keyed lists, and their laws.
- `src/reddit/auth.rs`: token requests and Reddit's answers to them.
- `src/reddit/submit_response.rs`: reading Reddit's answer to a submission.
- `src/reddit/submission.rs`: submitting one post to several subreddits in turn.
- `src/text.rs`: comparisons and joins of texts.

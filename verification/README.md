# webtoon

A read-only library for `webtoons.com`, verified with Verus.

The library in `src/` reads what the platform sends: the HTML of homepages, episode
lists, viewer pages, creator profiles and the Originals and Canvas lists, and the JSON
bodies of its posts, likes, search, analytics and user endpoints. Every function states
in its contract what it reads from its input, and when it fails. It also holds the
decisions of the walks over paginated endpoints (comments, replies, dashboard pages,
retries) as functions from state and answer to the next request.

- `src/stdx/`: text, numbers, base-36, dates, HTML selection, addresses, retries. HTML is
  parsed by `scraper`, addresses by `url`, dates by `chrono`, character references by
  `html-escape` and regular expressions by `regex`, each behind a small function whose
  contract names what the crate computes.
- `src/platform/webtoons/`: webtoons, their homepages and episodes, posts and their ids,
  creators, the Originals and Canvas lists, search, the creator dashboard.
- `tests/`: the library's tests.
- `app/`: the asynchronous client around the library: HTTP with `reqwest` and `tokio`,
  JSON with `serde`, and the loops that fetch page after page.

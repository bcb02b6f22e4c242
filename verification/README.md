# downlowd

A resumable, rate-limited HTTP file downloader whose decision-making core is
proved correct with Verus.

- `src/` is the verified library: the leaky-bucket and token-bucket rate
  limiters (`limiter/`), the sidecar file format that remembers what is known
  about a partly downloaded file (`file_info.rs`), parsing of the response
  headers that matter (`headers.rs`), retry policy and back-off (`retry.rs`),
  the decisions of the download loop (`attempt.rs`), the names of the files
  a download uses (`paths.rs`), and what a failed request is called and
  whether a request was redirected (`request.rs`).  Laws such as "the
  sidecar text reads back as what was written" and "the limiter never allows
  a burst above one second's worth" are stated and proved as public proof functions next to the
  code they are about.
- `app/` does the I/O: `reqwest`/`tokio` and `ureq` clients, files on disk,
  sleeping, locking shared limiters, and calling the caller's callbacks; what
  to request, what to write, how long to wait, whether to retry, and which
  error to report are asked of the library.
- `tests/` exercises the library on concrete values.

# gkg_billing

Bills the runs of a query pipeline. A `BillingObserver` is told what happens during one run: the
query's type and compiled form, times and costs, and errors. At the end it decides whether the run
is billed, describes the event, has it built and hands it to a tracker.

- `src/` is the verified library. `observer` holds the observer, `metadata` and `event` what an
  event says, `outcome` how a run can end, `constants` the shared wording and the realms,
  `query` and `metrics` what the pipeline reports, `json` the few calls into `serde_json`, and
  `laws` what holds of billing as a whole.
- `tests/` runs it.
- `app/` connects it to the event service, the counters and the log.

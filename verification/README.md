# paytech

The logic of a PayTech payment-gateway server, verified with Verus.

- `src/` is the library: the catalog filter and listing (`products`, `handlers`),
  order pricing (`pricing`), the PayTech request and the reading of its reply
  (`payment`), the signed IPN callback (`callback`, over the HMAC-SHA256 and hex
  wrappers in `crypto`), the configuration (`config`) and decimal numerals (`text`).
- `app/` is the Axum server around it: environment, files, HTTP, JSON and logging.
- `tests/` runs the library on concrete values.

# weather

A weather lookup tool on top of the Open-Meteo services (current conditions,
a five-day forecast, air quality), with its logic verified by Verus.

- `src/` is the verified library:
  - `percent.rs`: percent-encoding of query values, with proofs that the
    encoding decodes back, is injective, leaves unreserved text alone and only
    emits query-safe characters;
  - `codes.rs`: WMO weather-code descriptions and European AQI bands, with
    their laws;
  - `request.rs`: parameter checks, unit selection, the request URLs and the
    HTTP status check;
  - `report.rs`: turning the services' readings into reports, and the tool's
    response;
  - `text.rs`: string building blocks.
- `app/` holds the HTTP calls, the JSON reading and writing, and the
  floating-point coordinate checks.
- `tests/` exercises the library on concrete values.

# rtiddsconnector

RTI Connector for Rust: a simplified API to publish and subscribe to DDS data
with RTI Connext, over the native RTI Connector C library.

## Layout

- `src/` is the library, verified with Verus. It holds the logic of the API:
  the exclusive ownership of inputs and outputs (`connector`), the checks of
  the strings and sample indices handed to the C library, the mapping of its
  return codes and values (`ffi`, `native`), the reading of samples (`input`),
  the writing of samples and write parameters (`output`), and the errors of the
  API (`result`). The C library is reached through the traits of
  `native`, whose open relations between calls and answers let every contract
  state which call the library makes, with which arguments, and what comes of
  each answer.
  Numbers of sample fields cross the library as the bit patterns of their
  `f64` values.
- `app/` implements those traits over the C library, shares a connector
  between threads (blocking acquisition of inputs and outputs, release when a
  guard goes out of scope), and holds the serde forms of the write parameters
  and the serde conversion of samples.
- `tests/` runs the library against an in-memory stand-in for the C library.

# brewdrivers

Drivers and the configuration model of the Navasota Brewing brewery control system,
verified with Verus.

- `src/` is the verified library: the RTU, device, condition and rule model with its
  validators; the commands and replies of the STR1XX and Waveshare relay boards; the
  states of devices, with `f64` readings carried as their bit patterns.
- `app/` holds what the library leaves to its callers: reading the configuration
  files, the serial ports, the asynchronous device interface, and the `f64` sums
  that bound a condition's range.
- `tests/` exercises the library on concrete values.

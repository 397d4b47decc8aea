# bq41z50

A driver for the Texas Instruments BQ41Z50 battery pack manager and fuel
gauge, with its protocol logic verified in Verus.

- `src/` is the verified library. It plans every operation as the I2C
  transfers that carry it (`wire`, `interface`, `gauge`, `sbs`), decodes
  the gauge's replies, decides the Smart Battery status and capacity units
  (`status`, `sbs`), converts temperatures (`temperature`), and runs a plan
  to its end or its first bus failure (`transaction`).
- `app/` performs the transfers on an `embedded_hal_async::i2c::I2c` bus and
  implements the `device-driver` interface traits and the
  `embedded-batteries-async` `SmartBattery` trait on top of the library.
- `tests/` exercises the library on concrete values.

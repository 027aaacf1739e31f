# sensirion-sht3x

A driver core for the Sensirion SHT3x temperature and humidity sensors,
written in Verus.

`src/` is the verified library. It decides everything that goes over the
I²C bus and what the answers mean:

- `command`: the sensor's commands, their 16-bit codes and the time each
  needs before it can be answered;
- `crc`: the CRC-8 checks on every word the sensor sends (computed by the
  `sensirion-i2c` crate);
- `buffer`: big-endian words and the `bytes` buffers that frames are built in;
- `status`: the status register and its flags;
- `exchange`: one driver operation as a state machine that asks its host for
  bus actions (write, wait, read) and turns what the bus answered into the
  operation's outcome;
- `blocking`, `asynchronous`: the two drivers, which hold the bus, the
  sensor's address and the delay source, and hand out exchanges.

`app/` holds the hosts that carry exchanges out on `embedded-hal` and
`embedded-hal-async` buses, the conversion of the sensor's signals into
degrees Celsius and percent (floating point), and the `bitflags` form of the
status register.

# bouffalo_hal

Register value types of the Bouffalo Lab hardware abstraction layer, with
their accessors verified in Verus.

- `src/efuse.rs`: the electronic fuse registers. `EfuseControl` carries
  accessors for the protect code cycle, the interface 0 interrupt set, clear
  and status bits, the cycle modify lock, automatic read and PCLK force on.
  Each accessor's contract fixes its result exactly; proof functions at the end
  of the file state how writes combine: a write reads back as written and
  keeps every other bit, the last of two writes to one field wins, writing back
  a field's value changes nothing, and writes to different fields commute.
- `tests/`: tests on concrete register values.
- `app/`: the memory-mapped register block (`RegisterBlock`, on
  `volatile_register::RW`) and the `Efuse` driver around it.

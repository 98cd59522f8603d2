# mspm0l222x-hal

A hardware abstraction layer for the Texas Instruments MSPM0L2228 microcontroller, split in two:

- `src/` is the verified library (Verus). It holds everything the HAL computes or decides:
  the byte cursor used for debug output, DMA register words, flash command checks and
  write-protection masks, IOMUX pin configuration, LED/GPIO pin masks, MPU RBAR/RASR encoding,
  SysTick control words, the TRNG startup sequence, AES block/word conversion and the UART baud
  divisors and receive-error decoding. Each function states its result in its contract, and
  the properties that relate several functions are proof functions beside them.
- `app/` owns the peripheral register blocks (through `mspm0l222x-pac` and `cortex-m`), the
  global instances, and the register reads and writes; it hands the library plain values and
  writes back the words the library computes.

`tests/` exercises the library on concrete values.

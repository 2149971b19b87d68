# mujina_miner (S19XP Amlogic board support)

Board support for an Antminer S19XP on an Amlogic control board, split in two:

- `src/` is verified with Verus:
  - `text`: whitespace trimming, ASCII case folding, decimal rendering;
  - `values`: integers in decimal or `0x` hexadecimal, booleans, optional GPIO numbers;
  - `config`: the `MUJINA_S19XP_*` settings with their defaults and refusals;
  - `gpio`: sysfs paths and the levels written to output and reset lines;
  - `apw12`: framing of APW12 power-supply command packets;
  - `bringup`: the whole ordered bring-up plan (power-up, UART, reset, discovery, baud switch, probe-only power-down) and its parts;
  - `discovery`: collecting the BM1366 chips that answer on the chain;
  - `transport`: the transport discovery interface.
- `app/` reads the environment, touches sysfs and I2C, sleeps, waits for chip
  answers, and holds the floating-point parts (frequency and voltage checks,
  the APW12 voltage DAC encoding, the hashrate estimate).

# Universal Interface Adapter: command-line library

The command-line interface of the Universal Interface Adapter firmware (STM32F446, USB CDC),
written as a verified library. Every command turns its words into either a text to print or a
step for the hardware (drive a pin, apply new line settings, send bytes on a bus, ...); the
hardware layer performs the step and hands the answer back, and the command turns that answer
into text. The library decides; the firmware acts.

The registry holds every kind of command (echo, setup, clear, led, mosfet, relay,
isolated_input, gpio, uart, rs232, analog, i2c, spi, can), and the firmware in `app/`
registers them all. It carries out the pin requests of the board commands; it brings up none
of the bus and analog peripherals yet, so their transfers are answered as for a bus that was
never handed over, and serial settings and text are only acknowledged.

## Layout

- `src/text.rs`: decimal and hexadecimal parsing and formatting, hex data, rates such as `500k`.
- `src/cli_config.rs`: the user settings (answer length, colours, prompt character).
- `src/command.rs`: what every command shares: the `Command` trait, requests, responses, steps.
- `src/commands/`: one file per command, and the registry that holds the board commands.
- `src/cli_loop.rs`: the line editor, word splitting, running a line and finishing it.
- `src/serial_io.rs`: writing a buffer to a port that takes part of it at a time.
- `app/`: the firmware around the library: clocks, pins, the USB port and the main loop.
- `tests/`: tests of the library on concrete inputs.

The contracts of `src/` state each answer exactly over spec functions; the `law_` proof
functions state what holds across calls (round trips of formatting and parsing, the sorted
command list, a registered command answering to its name, and others).

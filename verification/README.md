# ESP32 ST3215 motor controller

Firmware for an ESP32 robot controller, with its logic verified in
[Verus](https://github.com/verus-lang/verus). It drives ST3215 serial-bus
servos and two DC motors behind a TB6612, and is controlled over a serial
console, a WiFi REST API and a BLE GATT service. BLE is the default radio;
credentials and the radio to boot with are kept in flash.

## Layout

The library under `src/` does no I/O. Verus proves the contract of every
function in it, except for the wrappers around calls into other crates, whose
contracts are believed (see below). What the contracts promise across functions
is stated in the proof functions whose names start with `law_`.

| Module | What it holds |
| ------ | ------------- |
| `st3215` | Packet framing, the status packet reader, the servo bus driver as a state machine, bus scans |
| `control` | The command loop with its motor watchdog, bus jobs and their reports |
| `commands` | Commands, the command queue, battery sample requests |
| `brushless` | Duty and direction outputs of the H-bridge and TB6612 drivers |
| `battery` | INA219 bus voltage and the 3S LiPo charge estimate |
| `serial_cmd`, `serial_laws` | The console grammar and line editor |
| `http_server`, `http_laws` | Routes, validation and JSON answers of the REST API |
| `ble` | The GATT service: frames, payloads, advertising data |
| `wifi` | The connection state machine, the readiness monitor with its BLE fallback, provisioning |
| `wifi_config` | The flash records of credentials and radio mode |
| `display` | Display state and the frames drawn from it |
| `bounded` | Fixed-capacity lists of `heapless` |
| `text` | Parsing and formatting |

What is believed about other crates stands in the functions marked
`external_body`, each with the call it wraps: lists and strings of `heapless`,
the channel of `embassy-sync`, URL decoding of `picoserve`, advertising
structures of `trouble-host`, and UTF-8 checking of `core`.

`app/` is the firmware around the library. Its `board` module holds the pins,
radios and tasks of an ESP32 on a Waveshare General Driver for Robots; the
other modules carry out what the library asks for. The chip crates (`esp-hal`,
`esp-radio`, `esp-rtos`, `esp-storage`, `esp-alloc`, `esp-backtrace`,
`esp-println`, `esp-bootloader-esp-idf`) build for the chip only.

`tests/` runs the library on the host.

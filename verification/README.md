# esp32-experiments

Verified decision logic of a handful of ESP32 firmware experiments (a blinking
LED, a push button, an ultrasonic range finder, an OLED display, LoRa beacons,
Wi-Fi and a plant-watering timer).

- `src/` is the library, verified with Verus: the LED and button behaviour
  (`blink`), the range finder's measurement cycle (`ranging`), the display reset
  pulse (`oled`), the LoRa beacon frames and counters (`p2p`, `decimal`), the
  Wi-Fi settings and bring-up sequence (`wifi`), and the watering cycle with its
  local-time text (`watering`, rendered through `chrono`).
- `app/` holds the firmware bodies that own the peripherals and timing and call
  the library for every decision.
- `tests/` exercises the library on concrete values.

# espbox_kiosk

Verified decision logic of a vending kiosk on an ESP32-S3-BOX-Lite: a BME680
sensor, an ST7789 display with an inventory of three food items, three
buttons on one ADC pin, and an MQTT-over-TLS link that publishes readings and
stock once a minute.

- `src/buttons.rs`: the voltage windows of the buttons.
- `src/inventory.rs`: stock, cursor, sales.
- `src/panel.rs`: the button handler, from a reading to screen actions.
- `src/payload.rs`: decimal payloads of stock counts.
- `src/session.rs`: the measure-and-publish session, as a transition function.
- `src/wifi.rs`: the WiFi keeper, as a transition function.
- `app/`: the firmware that performs the I/O each transition asks for.

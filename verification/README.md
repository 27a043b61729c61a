# reflow_oven

Controller for a toaster oven converted into a reflow soldering oven.

- `src/` is the verified library: reflow profiles and the state
  machine that walks them, the PID controller, the relay's PWM schedule, the
  MAX31855 thermocouple decoding, the simulated oven, the status LED's colours
  and WS2812 encoding, the run history, and the control loop's decisions
  (including the over-temperature cut-off).
- `app/` is the ESP32 firmware around it: Wi-Fi, the HTTP server and its web
  page, GPIO, RMT and the clock. It asks the library what to do at each step of
  the control loop and carries it out.

All quantities in the library are integers in fixed units: m°C for
temperatures, m°C/s for ramp rates, milliseconds for time, thousandths of a
percent for duty, thousandths for controller gains. The app converts to °C,
seconds and percent for the web page.

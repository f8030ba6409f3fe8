# Quick settings

The logic of a panel applet for the COSMIC desktop: Wi-Fi and Bluetooth switches, volume,
display brightness, battery, power profiles, and the buttons that suspend, log out, restart
and shut down. Each service is optional: a missing daemon simply removes, or disables, its
control.

The library in `src/` is written in Verus and verified. It does no input or output. Windows,
connections and channels are numbers to it; the translated texts come in from outside.

- `app`: the model, the messages, and what is to be done on each of them
- `window`: what stands in the panel and in the popup
- `audio`, `battery`, `brightness`, `network`, `power`, `profile`: what is known of each
  service, and the decisions that belong to it
- `percent`: percentages as binary64 numbers, held by their bits
- `feeds`: the steps by which the services are followed
- `labels`, `text`: the texts that are shown
- `laws`: what holds of the applet as a whole

One fact is taken on trust: the names that the `nmrs` crate gives to the states of
connectivity (`connectivity_text` in `network`).

`app/` is the applet around it: widgets, D-Bus, and the loops that follow the services. It
needs libcosmic, the COSMIC settings clients and a BlueZ client. `tests/` runs the library.

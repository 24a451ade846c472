# rmk_hid

The HID side of a keyboard firmware: its reports and report descriptors, the answers to USB control
requests, the scroll resolution that a host negotiates, and the decisions of the tasks that write
reports, read LED states and wake the host up.

- `src/` is the library. Every function states what it does in its contract and is proved with
  Verus; the `law_*` proof functions state what holds of the library as a whole.
  - `wire`, `hid`: reports and their bytes on the wire
  - `descriptor`, `report_maps`, `host_view`: report descriptors, how a host reads them, and that
    they agree with the reports
  - `hires`, `state`: the negotiated scroll resolution and the published bus state
  - `led`: what becomes of a LED report
  - `usb`: control requests (`handler`), the report writer (`writer`), the device task (`device`),
    and the layout of the device (`config`)
- `app/` connects the library to embassy-usb: endpoints, timers, channels and logging.
- `tests/` runs the library.

Contracts that are believed rather than proved are those of the `external_body` items in `hid` (two
serializers of `usbd-hid`) and in `usb::config` (a `heapless` string).

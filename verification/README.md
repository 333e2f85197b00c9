# daphne

CMSIS-DAPv2 probe tooling for a Raspberry Pi Debug Probe talking SWD to an Arm
target, with its protocol logic verified by Verus.

- `src/` is the verified library: DAP command and response packets, SWD/SWJ
  sequences, DP/AP/MEM-AP register encodings, CoreSight component maps,
  AArch64 system register encodings, the DAP transfer encoder and response
  resolver, the connect/disconnect/transfer state machine (`dap::Dap`), the
  server's message handling and session flags, and the reader of captured
  USB traffic (`parse::State`).
- `app/` runs that logic against the world: the USB probe (rusb), the TCP
  server and client (postcard on the wire), and the capture reader over
  pcap files or usbmon.
- `tests/` exercises the library on concrete packets and sessions.

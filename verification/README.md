# net_runner

A terminal "data breach" puzzle: the bytes of a live network reply (a DNS
answer, an HTTPS body or a UDP echo) fill a 5x5 matrix, and the player picks
cells along alternating rows and columns to match three hidden paths. A second
mode sniffs Ethernet frames and reports IPv4 and ARP traffic.

- `src/` is the verified library (Verus): the round state and its rules
  (`matrix_mode`, `matrix_backend`), what holds of every round
  (`matrix_laws`), the choice of request (`sending`), frame classification
  and interface lookup (`packet_reciever`) and the sniffer log
  (`game_interface`).
- `app/` is the program around it: terminal set-up, the event loop, drawing
  with ratatui, and the network I/O (tokio, reqwest, trust-dns, pnet).
- `tests/` runs the library on concrete values.

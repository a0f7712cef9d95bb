# viber_balance

A menu-bar monitor for a Viber VN API balance. `src/` is the verified core
(checked with Verus): request URLs and headers, reply status and payload
checks, the CSV export, tray decisions, the refresh timer and the low-balance
alert. `app/` is the Tauri shell around it: HTTP, JSON, settings storage, the
tray, windows, notifications, and the floating-point parts (percentages and the
battery icon).

# russ

A tray client for shadowsocks on Windows. The library (`src/`) holds the
verified logic: the configuration model (`config`), the client state machine
that switches between configured servers and decides what the local proxy is
started with (`client`), and the contracts of the shadowsocks parsers it calls
(`shadowsocks`). The program (`app/`) holds the window, the tray icon, the
registry entry for start on boot, the configuration file and the thread that
runs the proxy.

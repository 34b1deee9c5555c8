# mutools

MuTools is a desktop helper for the MuMu Android emulator on Windows: it
finds the installed emulator, downloads and installs its releases, manages
resource packages and applies a set of optimisations (hosts redirects,
startup image, updater, channel, system image marking).

The project is split in two:

- `src/` is the verified library (Verus). It holds the rules of the tool:
  which versions and paths apply, how downloads start, resume and stop, how
  the hosts file is edited, how the system image is marked and restored, how
  packages are named, unpacked and ordered, and every text the tool reports.
  Each public function has a contract over spec functions; the laws that
  span several functions are public proof functions (`law_*`).
- `app/` is the desktop side in plain Rust: files, processes, the registry,
  the network and the log. It calls the library for its decisions and
  carries them out.

Modules of the library:

| module      | what it covers                                                   |
|-------------|------------------------------------------------------------------|
| `text`      | characters, trimming, substrings, lines                          |
| `decimal`   | decimal text of numbers, both ways                               |
| `paths`     | locations as a base directory and names                          |
| `config`    | the tool's settings and its data directory                       |
| `elevation` | restarting with administrator rights                             |
| `logger`    | log lines                                                        |
| `mumu_info` | version, channel, install directory of the emulator              |
| `download`  | API requests, download control, resuming, installers             |
| `json`      | reading and setting one member of a JSON entry                   |
| `hosts`     | adding and removing hosts entries                                |
| `vdi`       | marking the system image and undoing it                          |
| `optimize`  | the optimisation steps and their outcomes                        |
| `packages`  | resource package names, kinds and archive entries                |
| `archive`   | what each entry of a zip package becomes when unpacked           |
| `order`     | the display order of lists                                       |

# dsh_desktop

The decisions of a Tauri desktop shell for the DeepSeek Harness web GUI, as a
verified library, and the program around it.

The shell is reuse-first: when a harness already serves the machine it attaches
to that server, because one session log has exactly one writer. Only when none
is running does it spawn one on a port that the system picks, wait for the
readiness line (`dsh web: http://127.0.0.1:PORT`) and show that page.

- `src/` holds what the shell decides, with contracts proved by Verus:
  - `text`: white space, lines and words;
  - `page_url`: URLs, parsed by the `url` crate and kept as plain parts;
  - `harness_url`: the readiness line and the record of a spawned harness;
  - `http`: the shell's requests and what it reads off the answers;
  - `lookup`: the search for a running harness;
  - `paths`, `launch`: where files stand and how a harness is started;
  - `workspace`: the build allowlist of a profile's `pnpm-workspace.yaml`;
  - `navigation`, `pet`: which pages stay, and the desktop pet's page;
  - `shell`, `shutdown`: the life of the shell beside its harness, and its end.
- `app/` is the program: files, sockets, processes, threads and windows.
- `tests/` runs the library.

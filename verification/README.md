# dropbox_backup_to_external_disk_cli

A command line tool for a one-way backup of a Dropbox account to an external
disk. The decisions of the tool are a Verus-verified library under `src/`:

- `command`: routing of the command line arguments to a sub-command;
- `completion`: bash completion of the sub-commands;
- `workflow`: the order of the backup steps, which step to run next
  (steps whose work lists are empty are skipped), and the steps of a sync;
- `path`: the neutral cross-platform form of the external disk's base path,
  the form in which it is stored, the checks when it is read back, and its
  Linux or Windows form (stated for each platform by
  `base_path_for_platform`; the platform itself is read from the build's
  path separator, of which nothing is proved);
- `progress`: printing of the progress bar of the move and rename commands;
- `text`: string helpers stated over character sequences.

`app/` is the program around it: argument reading, printing, files, threads,
and the calls into the Dropbox library. `tests/` runs the library on
concrete values.

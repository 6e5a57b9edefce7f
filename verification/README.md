# ia-get

A command-line tool for downloading the files of an item of the Internet Archive, private and
restricted ones included where archive.org credentials are given.

```shell
ia-get --username <email-or-username> --password "<password>" https://archive.org/details/<identifier>
```

The password can also be read from standard input, which keeps it out of the shell history:

```shell
printf '%s' "$IA_GET_PASSWORD" | ia-get --username <email-or-username> --password-stdin https://archive.org/details/<identifier>
```

## Layout

- `src/` is the library `ia_get_core`, verified with Verus. It decides what a run does next and what
  follows from each answer. `run` holds the run itself: a state machine that asks for one action at
  a time and takes the answer. The other modules hold its parts: `auth` the credentials, `client`
  the settings of the HTTP client, `login` and `cookies` the session, `metadata` the URLs, `plan`
  the downloads, `text` and `error` what they share.
- `http` holds what comes from `reqwest`: header maps and header values, the display of status
  codes, and URL parsing. Each call stands behind a small function whose contract is trusted; its
  doc comment says what is taken on trust. `text` does the same for two string functions of std.
- `tests/` runs the library on concrete values, with the real `reqwest`.
- `app/` is the program around it: arguments, requests, JSON and the messages on the terminal. An
  action that fails there, be it in transport or by the status of the reply, ends the program with
  its error. The form of the URL, the XML of the files list, names fit for the filesystem and the
  transfers themselves are the business of the crate `ia_get`.

# git_ssh_server

An SSH server that serves git repositories (push with `git-receive-pack`,
fetch with `git-upload-pack`). Creating the bare repositories on the server is
left to another service.

- `src/` is the verified library: how an `exec` command is read (`command`),
  the per-connection handler (`handler`), a handler bound to one repository
  (`ssh_handler`), the server settings (`settings`), shared protocol values
  (`protocol`), UTF-8 helpers (`text`) and regular expressions (`pattern`).
- `app/` runs the server with russh and tokio: it performs the process and
  session I/O that the handler asks for and reports back.
- `tests/` runs the library on concrete requests.

# virtiofsd

The logic of a virtio-fs file server, with its behaviour stated in contracts and proved by Verus.

- `src/` is the library:
  - `read_dir`: the records in which the kernel reports the entries of a directory, on Linux and on
    macOS;
  - `soft_idmap`: mapping user and group IDs between host and guest;
  - `passthrough::util`, `passthrough::macos`: flags, modes, paths of file descriptors, and an
    emulation of `fallocate`;
  - `passthrough::device_state`: migration, that is, what is collected of inodes before it, checking
    that, and turning it into what is sent;
  - `vhost_user`, `util`: errors and their texts.
- `app/` performs system calls and encodes migration streams.
- `tests/` runs the library on concrete values.

Where the server has to act in between decisions (reading a link, looking up a name, asking for the
size of a file), the library hands out a value that says what is needed, and goes on with the answer.

What is not proved, but taken from `libc`, `vm-memory`, `btree-range-map` and the standard library,
stands in functions marked `#[verifier::external_body]`; the comment above each says what is claimed.

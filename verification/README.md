# testcontainers

The part of a test container library that decides how a container reaches its host and how files
get into and out of it. The decisions are verified with Verus; sockets, SSH, the container engine
and the file system are driven by ordinary Rust around them.

- `src/` is the verified library.
  - `request`: what a container request says of hosts, networks and exposed host ports.
  - `host_access`: which engines understand `host-gateway`, where a gateway is found, and what the
    extra hosts of a container stand for.
  - `host_exposure`: which host ports are exposed, and how the SSH session that exposes them is
    set up, used and taken down.
  - `copy`: what is packed into an archive, and which file of an archive is taken out.
  - `text`: text operations over sequences of characters.
- `app/` performs what the library decides: it runs the steps that `src/` hands out and reports
  back how each of them ended.
- `tests/` runs the library, with real archives where archives are its subject.

Asynchronous work is split into steps. A function of `src/` takes the state and the event that
ended the last step, and says what comes next; its contract says so for every event. IP addresses
are carried as their canonical text, and whoever calls the library hands it the function that reads
them.

# secluso

Verified core logic of the Secluso camera tools, written in Verus.

`src/` is the library; every function in it carries a contract that Verus
proves:

- `path_safety`: Unix path components, the check that a route parameter is a
  single plain name, joining it under a user's directory, and the sandbox
  decision for the nearest existing ancestor of a target path.
- `preflight`: what a server's answers mean during provisioning (kernel,
  distribution, init system, sudo, architecture, disk, memory, listeners,
  firewall) and the remote commands that are sent.
- `preflight_run`: the preflight as a step function from a command's result
  to the next command, the remarks to log, or the end of the run; a run ends
  with a report only when every check passed, and stops at the first failure.
- `credentials`: the QR code of a new user's full credentials.
- `server_url`, `ip`: normalising the credentials URL and the warnings about
  URLs and addresses a phone cannot reach.
- `notification`: the notification target cache of the camera hub and how a
  notification is routed, including what follows a rejected relay binding.
- `light_control`: the day/night hysteresis of the IR-cut filter, the coil
  pulse sequences, and the decoding of the light and temperature sensors.
- `mls_clients`: the MLS client indices and tags.
- `text`, `decimal`: the string and number handling these rest on.

`app/` holds the I/O around the library: the SSH session, the filesystem,
GPIO and I2C, and the sensor programs (`toggle`, `ambient`, `temperature`).

`tests/` runs the library, including comparisons with the standard
library's own string, path and number functions.

# rog_control

Control logic for ASUS ROG laptops, written in Verus: keyboard lighting, lamp arrays, the
power status of the discrete GPU, raw HID devices, DMI identification and the settings of
the control centre.

Every function of the library in `src/` computes. What touches a device, a file, the message
bus or a timer is a value that the library hands out (a command, an action, a question), and
the outcome comes back as a value. So the order of commands, the reaction to failures and the
bytes that go to a device are all under contract.

| Module | What it decides |
| --- | --- |
| `hid_raw` | which hidraw endpoint is the device, ioctl numbers, what an attempt amounts to |
| `lamp_array` | the reports of a HID lamp array, and the frames of its animations |
| `script` | commands in order up to the first failure |
| `aura`, `aura_laptop` | what a keyboard is sent for an effect, a brightness or a power state |
| `lamp_array_zbus` | what clients of a lamp array read and change |
| `gpu`, `gpu_watch` | what is known of the discrete GPU, and when a change is reported |
| `dmi` | what the firmware tells of the machine |
| `config`, `autostart` | the settings of the control centre, and its desktop entry |
| `paths`, `text` | helpers on byte strings |

Proof functions whose names begin with `law_` state what holds across functions.

`tests/` runs the library on concrete values. `app/` is the host: it opens devices and files,
serves the message bus, and draws the waveforms, which are floating point.

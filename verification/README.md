# patina_sre

Boot manager for platforms that ship a System Recovery Environment (SRE) next
to the main operating system. What is done, in which order, and what the
answers of the firmware mean is decided in `src/`, where the functions have
contracts that Verus proves. `app/` performs the decisions on a platform.

Three small functions in `src/efi.rs` call other crates, and their contracts
are believed, not proved: the conversion of a status to an error of the
`patina` crate, and those of a boolean and of a GUID of the `r-efi` crate.

## How a step works

Each boot step is a machine. A function such as `run_sre_flow` or
`SreBootManager::execute` starts it; `action` says what to do next, and
`advance` takes what came of it. The machines never touch the firmware, so
their contracts hold whatever it answers.

## Layout

| Module | What it decides |
| --- | --- |
| `sre_boot_manager` | the configuration, and paths to apps in firmware volumes |
| `boot_run` | the whole boot, step by step |
| `boot_plan` | what a whole boot comes to, and the laws of it |
| `hotkey` | the recovery hotkeys |
| `interleave` | controller connection in turn with driver dispatch |
| `event_group` | signals to event groups |
| `usb_search` | the search for a USB volume |
| `bp_recovery` | the recovery boot from the NVMe boot partition |
| `bp_read`, `nvme_pass_thru` | the chunked reads of the partition and their commands |
| `ram_disk` | the registration of the image as a RAM disk |
| `chainload`, `file_path`, `device_path` | the boot application and its device path |
| `proxy` | calls to the platform's boot manager library |
| `efi` | statuses, errors, GUIDs and booleans |

The write-lock of the boot partition before the hand-off is not done yet; the
boot manager carries the path for it.

# eggos

The verified core of EggOS, a dual-kernel x86_64 system: a UEFI loader, a
VMX host kernel (hypervisor) and a security kernel that runs the desktop.

`src/` is a Verus library. It holds the decisions of the three programs, each
with a contract over a mathematical model:

- `bootloader`: ELF64 parsing into a load plan (entry point, segments, pages).
- `common`: boot structures shared between the stages.
- `host`: VM-exit dispatch, VMCS and VMX settings, round-robin domain
  scheduling, frame and bump allocation, EPT pointers, hypercalls, ACPI
  power-off.
- `kernel`: capability gate (minting, checking, revocation), capability
  guarded IPC and allocation, keyboard decoding, VGA text, battery saver,
  task freezing, framebuffer addressing.
- `security`: capability rights and tokens, slab allocation, chunk streams,
  task manager, descriptor tables, status bar, dialog, line and circle
  rasterisation.

`app/` performs the results on the hardware: port and MSR access, VMX
instructions, UEFI boot services, descriptor table loading, framebuffer
writes and the global locks. `tests/` exercise the library on concrete
values.

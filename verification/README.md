# lib

The verified core of a small x86-64 teaching kernel and hypervisor, written
in Verus.

`src/` holds the logic, each function with a contract that Verus proves:

- `addressing`, `bytes`: physical and virtual addresses, byte encodings.
- `x86_64`: segment and gate descriptors, selectors, the IDT, the TSS,
  flags and privilege levels.
- `interrupt`, `boot`: trap frames, the multiboot memory map and the
  usable regions built from it, IDT initialization.
- `mm`: the page-arena allocator, contiguous pages, the SLOB allocator.
- `dev`: MMIO areas, PCI configuration access, BARs and capabilities, the
  VirtIO PCI transport, virtqueues, device initialization as a state
  machine, and the block device's request planning.
- `thread`, `channel`: thread states and handles, context-switch
  decisions, and the state of bounded FIFO and rendezvous channels.
- `kev`: guest addresses, VMCS fields and exit decoding, the control
  fields of a virtual CPU, interrupt injection and exit decisions, the
  steps of the run loop and of a virtual CPU's thread, and the running
  state of each virtual CPU of a machine.
- `unwind`: the DWARF reader, `.eh_frame_hdr` lookup, CIE and FDE parsing,
  the call-frame instruction machine, and applying its rules to a frame.
- `simple_fs`: the on-disk layout and operations of a simple file system.
- `panicking`: the source frames of a program counter from the kernel
  image's debugging information, and the text of a backtrace entry.

`app/` is the hardware side: port and memory-mapped I/O, PCI configuration
cycles, VMX instructions and the run loops that perform what the library
decides. `tests/` exercise the library on concrete values.

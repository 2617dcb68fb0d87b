# rsramfs

A RAM-backed file system for the Linux kernel, with its decisions verified
by Verus.

- `src/` is the verified library. It works on plain values: kernel objects
  are handles holding their addresses (`handles`), inode modes are classified
  by their file-type bits (`mode`), mount options are parsed from their text
  (`options`, `cstring`), every file-system operation answers with a return
  code and the list of kernel calls to make (`ops`), and kernel log output is
  buffered (`writer`).
- `app/` is the kernel module around it: the C-callable entry points, the
  kernel calls themselves, the allocator and the global log writer.
- `tests/` runs the library on concrete values.

# iommu

Verified data-structure formats, ACPI table parsers, register words and
page-table walkers for x86 IOMMUs: AMD-Vi (`iommu::amd`) and Intel VT-d
(`iommu::intel`). Every function of the library is proved by Verus against
its contract; the contracts speak of words, bit fields and byte sequences.

## Layout

- `src/bitfield.rs` — bit fields and flags of 64-bit words, with the laws
  that setting a field reads back and leaves other fields alone.
- `src/bytes.rs` — little-endian reads, the ACPI byte checksum, and the two
  trusted readers that go through `zerocopy`.
- `src/text.rs` — decimal and hexadecimal renderings used by the
  `describe` methods.
- `src/amd/` — IVRS parsing, device table entries, commands, event and PPR
  log entries, interrupt remapping entries, MMIO register words, v1/v2 page
  table walks.
- `src/intel/` — DMAR parsing, root/context/PASID entries, queued
  invalidation descriptors, fault records, interrupt remapping entries,
  MMIO register words, first/second-stage page table walks.
- `app/` — `bitflags` views of the register and permission words, the
  tock-registers view of the VT-d register block, and `Display`/`Error`
  adapters built on the library's `describe` methods.
- `tests/` — unit tests and worked examples.

## Trusted code

Two functions in `src/bytes.rs` are taken on trust: they decode exactly
four or eight bytes with `zerocopy::FromBytes::read_from_bytes` on the
little-endian integer types of `zerocopy`. Everything else is verified.

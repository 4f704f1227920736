# vulkano (extension lists)

The extension lists of a Vulkan binding, verified with Verus.

- `src/instance.rs`, `src/device.rs`: `InstanceExtensions` and
  `DeviceExtensions`, one `bool` per extension that the library knows, and
  `RawInstanceExtensions` / `RawDeviceExtensions`, sets of extension names that
  may hold names the library does not know; the conversions both ways, the
  intersection and difference of lists, the list of enabled names as text, and
  reading a list off the names that a driver reports. Each file ends with the
  proved laws: converting flags to names and back gives the flags back,
  converting names to flags and back keeps the known names, intersection and
  difference of lists match those of their names, and the algebra of
  intersection and difference.
- `src/name_set.rs`: the set of names behind the raw types, a `Vec<String>`
  without repeats whose view is a `Set<Seq<char>>`.
- `src/known.rs`: what is shared by both tables of known names.
- `src/errors.rs`: the errors of asking a driver for its extensions.

Asking a driver for its extension names goes through the Vulkan loader and is
not part of this crate; the functions here take the names it reports.

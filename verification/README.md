# genlib

The core of Genlib, a desktop application for genealogical research that keeps
persons, their relationships, documents, images and research checklists.

`src/` is a Verus library: the decision logic of the application, each function
with a contract that Verus proves.

- `text`, `ordering`, `lists`: trimming, parsing and comparing text; the stable
  sort that the person list and the checklists use.
- `date`, `path`, `file_ops`, `exif`: dates and ages, file names and kinds,
  numbered file names, and what the image details show of a photo.
- `state`: the state that all views share (current view, selection, dialogs,
  status message).
- `modals`, `views`, `widgets`: the state machines of the dialogs and views —
  their checks, the messages they give, and what each button does.
- `shortcuts`: the keyboard shortcut map and how a key press is matched.
- `error`, `models`, `theme`: the error type, the stored records, the icons.

`app/` is ordinary Rust around the library: the disk, the platform directories,
the drawing style, and the values held as floating-point numbers.

`tests/` runs the library on concrete values.

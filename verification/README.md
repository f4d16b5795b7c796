# wayland_color

What a Wayland compositor answers to clients that use the protocols `color-management-v1` and
`color-representation-v1`, verified with Verus.

- `src/` is the library. It takes requests and the state they concern, and gives the state that
  follows, the events to send and the errors to post. Contracts say which, for every request.
  - `code_point` and `instances` hold what both protocols share.
  - `management` holds image descriptions, their builders and creators, the color manager, outputs
    and surfaces. `management::laws` and `management::history` state what holds over several calls,
    and over the life of a process with several color managers.
  - `representation` holds the color representation manager and what clients say about surfaces.
- `app/` serves the protocols: it makes the protocol objects, reads the files and sends the events.
- `tests/` runs the library on concrete values.

Which numbers of an enumeration the protocol knows, and what a hasher makes of its input, the
library takes from `wayland-server`, `wayland-protocols` and the standard library. The functions
that ask for these things are marked `external_body`, and their comments say what is claimed of
each. Links to image descriptions that do not keep them are `app/`'s, made of `std::sync::Weak`;
the library claims nothing of them.

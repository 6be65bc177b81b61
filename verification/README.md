# imagor_rs

An image service in the manner of imagor: a URL path names an image and the
operations to apply to it (crop, fit, flips, alignment, filters such as
blur, label, watermark or format), and the service answers with the
processed image, keeping sources and results in an object store under keys
derived from the path.

The library under `src/` is verified with Verus. It holds:

- `cyberpunkpath` and `imagorpath`: the two path grammars as functions on
  characters, their parameters, a path generator, storage keys derived from
  SHA-1 of paths, key normalisation, colours and filters, and the Argon2 check
  of signed paths;
- `processor`: the decisions of image processing (what the filters ask of the
  load, how the source is loaded, target sizes, resizing, which filters run,
  the layout of labels, rounded corners and padding, the encoder and the
  quality steps that keep a result under a byte limit, as a step function
  that the program drives, and keeping an image when a filter fails);
- `service`: the request checks, where a source comes from, and serving a
  request as a step function from state and event to next state and action
  (look up the stored result, else fetch, process, store, answer);
- `storage` and `config`: object names and plain settings.

Outside crates are reached through a few trusted wrappers (SHA-1, hex,
form encoding, Argon2, file-type detection, Unicode case mapping), each with
a contract stated in its doc comment.

`app/` is the program around the library: it runs those step functions,
performing each action and handing back what came of it. It holds the HTTP
server (axum), the pixel
work (libvips), the object stores (S3, Google Cloud Storage) and the
configuration types. `tests/` exercises the library.

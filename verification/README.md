# soulbook

The client-side logic of the SoulBook knowledge-base front end, written in
Verus. `src/` is the verified library: request paths and bodies, the JSON
model of the server's replies, the completion of document and space records,
size and upload formatting, URI encoding, and the decisions of the pages
(space selection, badges, forms). `tests/` runs the library on concrete
values. `app/` is the Dioxus web application around it: the HTTP layer, the
serde copies of the records, and the pages.

Run `verus` on `src/lib.rs` to check the proofs.

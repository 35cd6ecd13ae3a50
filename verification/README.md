# vector_utils

Helpers around vector indexes, verified with Verus:

- `finite`: which rows of a list of vectors are finite; `rows` cuts the rows
  into chunks that can be checked side by side and joins the answers.
- `convert`: lists of vectors as tensors (`pb`), and back.
- `simple_index`: when an index over centroids is worth training, what it is
  trained on and how it is asked.
- `prefetch`: which addresses to touch to have memory in the cache.

`array` and `numbers` hold the arrays and what their bytes stand for, `error`
and `text` the errors and their messages. What is trusted of the arrow crates
and of the standard library is in `outside`.

`app/` reads the settings, starts the threads and converts arrow arrays and
protobuf messages.

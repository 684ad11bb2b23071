# gst_audio_backend

The decisions of a GStreamer audio backend for a virtio sound device, verified
with Verus.

- `src/` holds the decisions. Functions that depend on pipelines, locks,
  channels or threads are steps: they are told what has happened and say what to
  do next.
  - `stream`: PCM streams, their states, parameters and requests
  - `virtio_sound`: codes and messages of the protocol
  - `pipeline`: which elements the pipeline of a stream is made of
  - `caps`: how the application ends of a pipeline are configured
  - `samples`: moving samples from requests into a pipeline
  - `worker`: what the thread that serves a stream does
  - `backend`: the commands of the device
  - `locks`: which lock each step of a command needs
  - `laws`: what holds of the commands as a whole
  - `error`, `text`: errors and how they are rendered
- `app/` makes the calls into GStreamer, holds the locks and runs the threads.
- `tests/` runs the library on concrete values.

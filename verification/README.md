# tokimo_package_ffmpeg

The decision logic of a media transcoding library, verified with Verus.

- `src/common`: codec-name normalization (`codec`) and encoding rules
  (`encoding`): which audio codecs browsers cannot play, AAC channel and
  bitrate selection, video bitrate scaling.
- `src/transcode`: DTS estimation for stream-copy packets (`dts`), stream
  selection of a pass (`pass::analyze`), session decisions (`session`), per-frame
  decisions of the decode/encode threads (`pipeline`) and option types (`types`).
- `src/media/screenshot`: decisions of one-shot screenshot capture.
- `src/memory`: reading `/proc/self/status` and the verdicts of the
  screenshot memory bench.
- `src/text`: exact string comparison and lower-casing.
- `app/`: glue to FFmpeg (rsmpeg), the file system, jemalloc and libc, and the
  seek-restart loop of a transcode session.
- `tests/`: tests of the library.

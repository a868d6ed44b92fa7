# shared_utils

Media-analysis helpers with verified contracts: container and bitstream
parsers (WebP, GIF, TIFF, AVIF, JXL, HEIC/HEVC, JPEG, PNG), HDR colour
metadata mapping (CICP, ffmpeg and x265 parameters, BT.709 inference),
ffprobe side-data and stream selection rules, GPU encoder catalogues and
ffmpeg output summaries, command-line builders for the imaging tools, file
classification for output trees, and flag validation.

- `src/` – the library, verified with Verus; every public function states its
  result in `ensures`, and the `law_*` proof functions state properties that
  relate several functions.
- `tests/` – tests run against the compiled library.
- `app/` – process, file-system and JSON plumbing around the library
  (running ffprobe/ffmpeg and the tools, walking directories, GPU detection,
  serde forms of the result types) and the floating-point helpers of the
  GPU/CPU quality search (sampling windows, quality scores, CRF mapping).

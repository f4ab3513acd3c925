# zed_latex

The logic behind an editor's LaTeX previews, verified with Verus:

- `pixels`: premultiplied RGBA rasters become straight-alpha BGRA, with the
  law that premultiplying again gives back the original channel.
- `equations`: the standalone TeX document that typesets a batch of
  equations, the source size limit, and how a failed batch is answered.
- `compiler`, `pdf`, `errors`: how the TeX compiler is started and
  supervised (time, output and PDF size limits), reading the produced PDF
  with hayro, page selection, and the error messages.
- `json`, `settings_inherit`, `settings_watch`: official configuration
  inherited under custom configuration (objects merge with custom values
  taking precedence, keymaps concatenate official-first), and the watchers'
  decisions.
- `preview`: the TeX preview pane's state machine (compile and render
  coalescing, status messages, page buttons).
- `math_preview`: equation settings, placeholder text and the cache of
  rendered equations.

JSON text is parsed with `serde_json_lenient` and printed with `serde_json`
from the library itself, behind small trusted wrappers whose contracts name
the parsed value and the printed text.

`app/` holds what stays outside the verified library: compiler processes,
temporary files, and rasterization with floating-point sizes.

# strobe_mex

Argument checking and dispatch for the MATLAB entry point (`mexFunction`) of
the Strobe drawing toolkit, verified with Verus.

* `src/` — the verified library: the model of a MATLAB argument (`mx`), object
  handles (`handle`), the command names (`command`), the per-command rule
  tables and their evaluation (`rules`, `messages`), the decision on a call
  (`dispatch`), the C strings handed to Strobe (`text`) and properties of the
  tables and decisions (`laws`).
* `app/` — the entry point itself: it reads the arguments through the MATLAB
  C API, asks `dispatch::decide` what to do, reports refusals through
  `mexErrMsgIdAndTxt`, and hands the numbers, strings and handles of an
  accepted call to Strobe.
* `tests/` — tests of the library on concrete calls.

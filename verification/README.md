# riir_infer_gpu

Launch planning for the CUDA kernels of the inference runtime: attention,
delta-rule layers, elementwise operations, embedding rows and low-rank
corrections.

- `src/` plans. Each `launch_*` method turns sizes into a plan, a queue of
  launches with grid, block, shared memory and arguments, or refuses the sizes
  with a text. Each `new` gives the build of a module: compile, load, look the
  kernels up, opt in to shared memory. Contracts say exactly what each plan and
  build holds; the `law_*` functions prove what holds across them.
- `app/` executes plans with the CUDA driver, forms the floating-point arguments
  and reads the settings of the process.
- `tests/` runs the planner on concrete sizes.
- `src/sources/` holds the CUDA C of the kernels, which is not verified.

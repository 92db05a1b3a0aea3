# k8s-mcp

A Model Context Protocol (MCP) server for Kubernetes. An MCP client talks
JSON-RPC to it over standard input and output; the server offers tools to get,
list and delete resources, read pod logs and events, show resource usage,
inspect kubeconfig contexts, list the cluster's API resources and versions, and
report the cluster's version. Mutating tools are refused unless the server runs
with `--read-write`.

## Layout

- `src/` is the library, verified with Verus: the protocol decisions of the
  server (`mcp/`), the tool registry, tool definitions and the decisions each
  tool makes (`tools/`), the table formatters (`format/`), and the Kubernetes
  models: versions, quantities, discovery cache, client state and kubeconfig
  contexts (`k8s/`). Contracts state what each function returns; laws about
  several calls are public proof functions named `law_*`.
- `app/` is the program around the library: command-line arguments, logging,
  the stdio loop, JSON (de)serialisation, and the calls to the Kubernetes API.
- `tests/` exercises the library on concrete values.

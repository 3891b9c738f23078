# open-meteo-mcp

A Model Context Protocol server for weather, snow, air quality and location
data served by the Open-Meteo API.

`src/` is the verified library: date checking, request validation, retry
scheduling with exponential backoff, transport configuration, health
reporting and the readiness cache, the comfort index, error mapping, the
Swiss result filter, and the prompt texts. Public
functions carry contracts; the one that reads the clock states nothing of the
time it reads, and the functions that take a clock reading state exactly what
they make of it. The properties that span functions are stated as proof
functions next to them.

`app/` is the server around it: the command line, the HTTP calls to
Open-Meteo, JSON encoding, the MCP SDK wiring and the HTTP transport. It holds
the request and response types, whose coordinates and measurements are
floating-point numbers; it rounds the forecast's measurements to the tenths
on which the library computes the comfort index.

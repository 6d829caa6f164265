# skuffen_application

The application layer of the Skuffen archive service: how client commands
are received, validated, decomposed into archive operations, registered with
the executor and carried out against the archive, and what status messages
tell the client on the way.

`src/` is verified with Verus. Every decision the services take is a
function there with a contract: which entities a command mints, the rows and
operations it is decomposed into, whether it can run, what each archive step
needs beforehand and writes afterwards, how errors are classified and made
safe to publish, when a failed attempt is retried, and which status message
goes out. Laws that span several functions are proof functions named `law_*`.

`app/` holds the asynchronous services that do the I/O around those
decisions: the stores, the archive gateway, the dispatcher and the status
publisher are traits there, and the services call the library for every
decision.

`tests/` runs the library on concrete commands.

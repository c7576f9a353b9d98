# sat_api

A web service that keeps a user's SAT (Mexican tax authority) credentials,
validates them against the SAT portal, downloads the user's invoices and
serves them back through a JSON API.

- `src/` is the verified library (Verus): pagination, the error values and
  their HTTP statuses, credential password encryption (AES-256-GCM, base64),
  SAT date and amount reading, the decisions of a crawl run and of the setup
  after a new credential (as step functions from state and event to next
  state and action), the invoice listing query, grouping of child rows under
  their parents, login and registration decisions, and the request and
  answer shapes. Each public function has a contract; the laws that tie
  several functions together are public proof functions.
- `app/` is the server around it: `main`, the HTTP routes, the database
  repositories, object storage, the portal crawler's event handler, and the
  loops that perform the actions the library's step functions ask for.
- `tests/` runs the library on concrete values.

# zora_bot

A Discord bot that announces coins from the Zora explore API, with its logic
verified by Verus.

- `src/` is the verified library: the API's data model (`models`), decimal
  and white-space handling (`text`), JSON string literals through serde_json
  (`json`), the explore URL, retry schedule and token-creation request
  (`api`), the bot's texts, commands and new-coin tracking (`bot`), the HTTP
  route's answer (`web`) and the coin contract's deployment arguments
  (`ethereum`).
- `app/` is the program around it: the Discord client (serenity), the HTTP
  calls (reqwest), the HTTP server (warp), the polling loops and the serde
  copies of the model types.
- `tests/` runs the library on concrete values.
